//! The platform vocabulary: the closed set of platform keywords, and the
//! expansion of composite groups into atomic targets.

use vstd::prelude::*;

verus! {

/// A platform keyword: either an atomic target (`Linux`, `Macos`, `Windows`)
/// or a named composite group (`All`, `Posix`) that expands to a fixed set of
/// atoms.
#[derive(Clone, Copy, Debug, PartialEq, Eq, Structural)]
pub enum Platform {
    All,
    Posix,
    Linux,
    Macos,
    Windows,
}

impl Platform {
    /// Whether this keyword names a single concrete target.
    pub open spec fn is_atom(self) -> bool {
        self == Platform::Linux || self == Platform::Macos || self == Platform::Windows
    }

    /// Whether atom `a` belongs to the expansion of this group.
    /// Atoms expand to themselves; `Posix` covers the Linux-like and
    /// macOS-like atoms; `All` covers every atom.
    pub open spec fn covers(self, a: Platform) -> bool {
        match self {
            Platform::All => a.is_atom(),
            Platform::Posix => a == Platform::Linux || a == Platform::Macos,
            _ => a == self && a.is_atom(),
        }
    }

    /// The expansion of this group, as an ordered sequence of atoms.
    pub open spec fn spec_expand(self) -> Seq<Platform> {
        match self {
            Platform::All => seq![Platform::Linux, Platform::Macos, Platform::Windows],
            Platform::Posix => seq![Platform::Linux, Platform::Macos],
            _ => seq![self],
        }
    }

    /// Expands a group keyword to the list of atoms it covers, in the
    /// canonical (lexicographic) order.
    pub fn expand(self) -> (r: Vec<Platform>)
        ensures
            r@ == self.spec_expand(),
    {
        match self {
            Platform::All => vec![Platform::Linux, Platform::Macos, Platform::Windows],
            Platform::Posix => vec![Platform::Linux, Platform::Macos],
            _ => vec![self],
        }
    }

    /// Whether atom `a` belongs to the expansion of this group.
    pub fn covers_atom(self, a: Platform) -> (r: bool)
        ensures
            r == self.covers(a),
    {
        match self {
            Platform::All => a == Platform::Linux || a == Platform::Macos || a
                == Platform::Windows,
            Platform::Posix => a == Platform::Linux || a == Platform::Macos,
            Platform::Linux | Platform::Macos | Platform::Windows => a == self,
        }
    }

    /// The expansion sequence holds exactly the atoms this group covers.
    pub proof fn lemma_expand_covers(self)
        ensures
            forall|a: Platform| self.spec_expand().contains(a) <==> self.covers(a),
    {
        assert forall|a: Platform| self.spec_expand().contains(a) <==> self.covers(a) by {
            if self.covers(a) {
                match self {
                    Platform::All => {
                        if a == Platform::Linux {
                            assert(self.spec_expand()[0] == a);
                        } else if a == Platform::Macos {
                            assert(self.spec_expand()[1] == a);
                        } else {
                            assert(self.spec_expand()[2] == a);
                        }
                    },
                    Platform::Posix => {
                        if a == Platform::Linux {
                            assert(self.spec_expand()[0] == a);
                        } else {
                            assert(self.spec_expand()[1] == a);
                        }
                    },
                    _ => {
                        assert(self.spec_expand()[0] == a);
                    },
                }
            }
        }
    }
}

} // verus!
