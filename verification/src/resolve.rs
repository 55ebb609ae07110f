//! The platform-set resolver: computes the allowed atom set of an option
//! block from its allow and exclude group lists, renders the guard predicate
//! for it, and reports the conflict when the two lists cancel out.

use vstd::prelude::*;

use crate::diag::{Anchor, Diagnostic};
use crate::platform::Platform;
use crate::text::{join_sep, join_strings};

verus! {

/// A set of atomic platforms, one flag per predefined atom. This is the
/// canonical form of a resolved platform set: two equal sets are equal
/// values, whatever order their groups were written in.
#[derive(Clone, Copy, Debug, PartialEq, Eq, Structural)]
pub struct AtomSet {
    pub linux: bool,
    pub macos: bool,
    pub windows: bool,
}

impl AtomSet {
    /// Whether the atom `a` belongs to this set. Composite keywords belong
    /// to no atom set.
    pub open spec fn has(self, a: Platform) -> bool {
        match a {
            Platform::Linux => self.linux,
            Platform::Macos => self.macos,
            Platform::Windows => self.windows,
            _ => false,
        }
    }

    pub open spec fn is_empty(self) -> bool {
        !self.linux && !self.macos && !self.windows
    }

    /// How many atoms the set holds.
    pub open spec fn count(self) -> int {
        (if self.linux {
            1int
        } else {
            0int
        }) + (if self.macos {
            1int
        } else {
            0int
        }) + (if self.windows {
            1int
        } else {
            0int
        })
    }

    /// The atoms of the set in canonical (lexicographic) order.
    pub open spec fn spec_atoms(self) -> Seq<Platform> {
        (if self.linux {
            seq![Platform::Linux]
        } else {
            Seq::empty()
        }) + (if self.macos {
            seq![Platform::Macos]
        } else {
            Seq::empty()
        }) + (if self.windows {
            seq![Platform::Windows]
        } else {
            Seq::empty()
        })
    }

    pub proof fn lemma_atoms_len(self)
        ensures
            self.spec_atoms().len() == self.count(),
    {
    }

    /// Every element of the ordered atom list is an atom.
    pub proof fn lemma_atoms_are_atoms(self)
        ensures
            forall|k: int| 0 <= k < self.spec_atoms().len() ==> self.spec_atoms()[k].is_atom(),
    {
    }

    /// The atoms of the set, in canonical order.
    pub fn atoms(&self) -> (r: Vec<Platform>)
        ensures
            r@ == self.spec_atoms(),
    {
        let mut v: Vec<Platform> = Vec::new();
        if self.linux {
            v.push(Platform::Linux);
        }
        if self.macos {
            v.push(Platform::Macos);
        }
        if self.windows {
            v.push(Platform::Windows);
        }
        proof {
            assert(v@ =~= self.spec_atoms());
        }
        v
    }
}

/// Whether some group of `gs` covers the atom `a`.
pub open spec fn covers_any(gs: Seq<Platform>, a: Platform) -> bool {
    exists|k: int| 0 <= k < gs.len() && gs[k].covers(a)
}

/// The resolved platform set: every atom covered by some allowed group and
/// by no excluded group. The exclude list always wins.
pub open spec fn spec_allowed(allow: Seq<Platform>, exclude: Seq<Platform>) -> AtomSet {
    AtomSet {
        linux: covers_any(allow, Platform::Linux) && !covers_any(exclude, Platform::Linux),
        macos: covers_any(allow, Platform::Macos) && !covers_any(exclude, Platform::Macos),
        windows: covers_any(allow, Platform::Windows) && !covers_any(
            exclude,
            Platform::Windows,
        ),
    }
}

/// Whether some group of `gs` covers the atom `a`.
fn list_covers(gs: &Vec<Platform>, a: Platform) -> (r: bool)
    ensures
        r == covers_any(gs@, a),
{
    let mut k: usize = 0;
    while k < gs.len()
        invariant
            k <= gs@.len(),
            forall|j: int| 0 <= j < k ==> !gs@[j].covers(a),
        decreases gs@.len() - k,
    {
        if gs[k].covers_atom(a) {
            return true;
        }
        k += 1;
    }
    false
}

/// The option block of one annotated declaration: the list of allowed groups
/// and the list of excluded groups, as written by the author (the allow list
/// is defaulted at parse time, never here).
#[derive(Clone, Debug)]
pub struct AttrOptions {
    pub allow: Vec<Platform>,
    pub exclude: Vec<Platform>,
}

/// What the resolver yields for one option block: the allowed atom set, the
/// rendered guard predicate, and the conflict diagnostic when the set is
/// empty.
#[derive(Clone, Debug)]
pub struct Resolution {
    pub allowed: AtomSet,
    pub guard: String,
    pub diagnostic: Option<Diagnostic>,
}

/// The `target_os` name of an atom.
pub open spec fn atom_os_name(a: Platform) -> Seq<char> {
    match a {
        Platform::Linux => "linux"@,
        Platform::Macos => "macos"@,
        Platform::Windows => "windows"@,
        _ => Seq::empty(),
    }
}

/// One equality test of the guard predicate.
pub open spec fn cfg_term(a: Platform) -> Seq<char> {
    "target_os = \""@ + atom_os_name(a) + "\""@
}

/// The guard terms of the atoms, in order.
pub open spec fn spec_terms(atoms: Seq<Platform>) -> Seq<Seq<char>> {
    atoms.map_values(|a: Platform| cfg_term(a))
}

/// The rendered guard of a resolved set: a single equality test when the set
/// holds exactly one atom, otherwise a disjunction over the ordered atom
/// list — an always-false disjunction over zero terms when it is empty.
pub open spec fn spec_guard(s: AtomSet) -> Seq<char> {
    if s.count() == 1 {
        "#[cfg("@ + cfg_term(s.spec_atoms()[0]) + ")]"@
    } else {
        "#[cfg(any("@ + join_sep(spec_terms(s.spec_atoms()), ", "@) + "))]"@
    }
}

/// The message of the conflict diagnostic for an empty resolved set.
pub open spec fn empty_set_msg() -> Seq<char> {
    "configuration excludes all platforms: the allow and exclude directives cancel each other out"@
}

fn atom_os_name_str(a: Platform) -> (r: &'static str)
    requires
        a.is_atom(),
    ensures
        r@ == atom_os_name(a),
{
    match a {
        Platform::Linux => "linux",
        Platform::Macos => "macos",
        Platform::Windows => "windows",
        _ => "",
    }
}

fn cfg_term_string(a: Platform) -> (r: String)
    requires
        a.is_atom(),
    ensures
        r@ == cfg_term(a),
{
    let mut s = String::from_str("target_os = \"");
    s.append(atom_os_name_str(a));
    s.append("\"");
    s
}

/// Renders the guard predicate of a resolved set.
pub fn guard_string(allowed: &AtomSet) -> (r: String)
    ensures
        r@ == spec_guard(*allowed),
{
    let atoms = allowed.atoms();
    proof {
        allowed.lemma_atoms_len();
    }
    if atoms.len() == 1 {
        let mut s = String::from_str("#[cfg(");
        let term = cfg_term_string(atoms[0]);
        s.append(term.as_str());
        s.append(")]");
        s
    } else {
        let mut terms: Vec<String> = Vec::new();
        let mut i: usize = 0;
        while i < atoms.len()
            invariant
                i <= atoms@.len(),
                atoms@ == allowed.spec_atoms(),
                terms.deep_view() =~= spec_terms(atoms@.take(i as int)),
            decreases atoms@.len() - i,
        {
            assert(atoms@[i as int].is_atom());
            let ghost pre = terms.deep_view();
            terms.push(cfg_term_string(atoms[i]));
            proof {
                assert(terms.deep_view() =~= pre.push(cfg_term(atoms@[i as int])));
                assert(spec_terms(atoms@.take(i + 1)) =~= pre.push(cfg_term(atoms@[i as int])));
            }
            i += 1;
        }
        proof {
            assert(atoms@.take(atoms@.len() as int) =~= atoms@);
        }
        let mut s = String::from_str("#[cfg(any(");
        let joined = join_strings(&terms, ", ");
        s.append(joined.as_str());
        s.append("))]");
        s
    }
}

impl AttrOptions {
    /// The resolved platform set of this option block.
    pub fn allowed_set(&self) -> (r: AtomSet)
        ensures
            r == spec_allowed(self.allow@, self.exclude@),
    {
        AtomSet {
            linux: list_covers(&self.allow, Platform::Linux) && !list_covers(
                &self.exclude,
                Platform::Linux,
            ),
            macos: list_covers(&self.allow, Platform::Macos) && !list_covers(
                &self.exclude,
                Platform::Macos,
            ),
            windows: list_covers(&self.allow, Platform::Windows) && !list_covers(
                &self.exclude,
                Platform::Windows,
            ),
        }
    }

    /// Resolves this option block: the allowed atom set, its rendered guard
    /// predicate, and — when allow and exclude cancel out — a conflict
    /// diagnostic anchored at the option block, beside (never instead of)
    /// the always-false guard.
    pub fn convert_to_cfg_attr(&self) -> (r: Resolution)
        ensures
            r.allowed == spec_allowed(self.allow@, self.exclude@),
            r.guard@ == spec_guard(r.allowed),
            r.diagnostic is Some <==> r.allowed.is_empty(),
            r.diagnostic matches Some(d) ==> d.message@ == empty_set_msg() && d.anchor
                == Anchor::OptionBlock,
    {
        let allowed = self.allowed_set();
        let guard = guard_string(&allowed);
        let diagnostic = if !allowed.linux && !allowed.macos && !allowed.windows {
            Some(
                Diagnostic::new(
                    String::from_str(
                        "configuration excludes all platforms: the allow and exclude directives cancel each other out",
                    ),
                    Anchor::OptionBlock,
                ),
            )
        } else {
            None
        };
        Resolution { allowed, guard, diagnostic }
    }
}

/// Covering an atom depends only on which groups are listed, not on their
/// order or multiplicity.
pub proof fn lemma_covers_any_set_determined(gs1: Seq<Platform>, gs2: Seq<Platform>, a: Platform)
    requires
        gs1.to_set() == gs2.to_set(),
    ensures
        covers_any(gs1, a) == covers_any(gs2, a),
{
    if covers_any(gs1, a) {
        let k = choose|k: int| 0 <= k < gs1.len() && gs1[k].covers(a);
        assert(gs1.to_set().contains(gs1[k]));
        assert(gs2.contains(gs1[k]));
        let j = choose|j: int| 0 <= j < gs2.len() && gs2[j] == gs1[k];
        assert(covers_any(gs2, a));
    }
    if covers_any(gs2, a) {
        let k = choose|k: int| 0 <= k < gs2.len() && gs2[k].covers(a);
        assert(gs2.to_set().contains(gs2[k]));
        assert(gs1.contains(gs2[k]));
        let j = choose|j: int| 0 <= j < gs1.len() && gs1[j] == gs2[k];
        assert(covers_any(gs1, a));
    }
}

/// Resolution is a function of the two group sets alone: two option blocks
/// that list the same groups — in any order, with any repetitions — resolve
/// to the same atom set.
pub proof fn lemma_resolution_set_determined(
    allow1: Seq<Platform>,
    exclude1: Seq<Platform>,
    allow2: Seq<Platform>,
    exclude2: Seq<Platform>,
)
    requires
        allow1.to_set() == allow2.to_set(),
        exclude1.to_set() == exclude2.to_set(),
    ensures
        spec_allowed(allow1, exclude1) == spec_allowed(allow2, exclude2),
{
    lemma_covers_any_set_determined(allow1, allow2, Platform::Linux);
    lemma_covers_any_set_determined(allow1, allow2, Platform::Macos);
    lemma_covers_any_set_determined(allow1, allow2, Platform::Windows);
    lemma_covers_any_set_determined(exclude1, exclude2, Platform::Linux);
    lemma_covers_any_set_determined(exclude1, exclude2, Platform::Macos);
    lemma_covers_any_set_determined(exclude1, exclude2, Platform::Windows);
}

/// Resolving the same option block always renders byte-identical guard text:
/// the guard is a function of the group sets alone, independent of the order
/// the groups were listed in and of repetitions.
pub proof fn lemma_guard_text_deterministic(
    allow1: Seq<Platform>,
    exclude1: Seq<Platform>,
    allow2: Seq<Platform>,
    exclude2: Seq<Platform>,
)
    requires
        allow1.to_set() == allow2.to_set(),
        exclude1.to_set() == exclude2.to_set(),
    ensures
        spec_guard(spec_allowed(allow1, exclude1)) == spec_guard(spec_allowed(allow2, exclude2)),
{
    lemma_resolution_set_determined(allow1, exclude1, allow2, exclude2);
}

/// Resolving an allow list of atoms with an empty exclude list yields
/// exactly the listed atoms, whatever order they are listed in.
pub proof fn lemma_resolve_atoms_exact(allow: Seq<Platform>)
    requires
        forall|k: int| 0 <= k < allow.len() ==> allow[k].is_atom(),
    ensures
        forall|a: Platform|
            spec_allowed(allow, Seq::empty()).has(a) <==> allow.contains(a),
{
    assert forall|a: Platform|
        spec_allowed(allow, Seq::empty()).has(a) <==> allow.contains(a) by {
        if covers_any(allow, a) {
            let k = choose|k: int| 0 <= k < allow.len() && allow[k].covers(a);
            assert(allow[k] == a);
        }
        if allow.contains(a) {
            let k = choose|k: int| 0 <= k < allow.len() && allow[k] == a;
            assert(allow[k].covers(a));
            assert(covers_any(allow, a));
        }
    }
}

} // verus!
