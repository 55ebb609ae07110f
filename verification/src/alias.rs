//! The alias generators: per-platform type aliases for a type declaration,
//! and visibility-split module aliases for a module or re-export
//! declaration. Both are parameterized only by the resolved platform set.

use vstd::prelude::*;

use crate::decl::{GenericParam, StructDecl};
use crate::platform::Platform;
use crate::resolve::{atom_os_name, cfg_term};
use crate::text::{join_sep, join_strings};
use crate::transform::{
    attr_lines, attr_lines_string, generics_decl_text, generics_decl_string, vis_prefix,
};

verus! {

/// The human-readable alias suffix of an atom.
pub open spec fn atom_suffix(a: Platform) -> Seq<char> {
    match a {
        Platform::Linux => "Linux"@,
        Platform::Macos => "MacOS"@,
        Platform::Windows => "Windows"@,
        _ => Seq::empty(),
    }
}

/// The guard testing a single atom: no disjunction is needed.
pub open spec fn single_guard(a: Platform) -> Seq<char> {
    "#[cfg("@ + cfg_term(a) + ")]"@
}

/// A deprecation marker on its own line, or nothing for none.
pub open spec fn deprecation_prefix(dep: Seq<char>) -> Seq<char> {
    if dep.len() == 0 {
        Seq::empty()
    } else {
        dep + "\n"@
    }
}

/// One generic argument on the aliased type: every parameter by name,
/// lifetimes preserved — a type alias is purely referential and carries no
/// forwarding call.
pub open spec fn alias_usage_arg(g: GenericParam) -> Seq<char> {
    match g {
        GenericParam::Lifetime { name, .. } => "'"@ + name@,
        GenericParam::Type { name, .. } => name@,
        GenericParam::Const { name, .. } => name@,
    }
}

/// The generic-argument list applied to the aliased type.
pub open spec fn alias_usage_text(gs: Seq<GenericParam>) -> Seq<char> {
    if gs.len() == 0 {
        Seq::empty()
    } else {
        "<"@ + join_sep(gs.map_values(|g: GenericParam| alias_usage_arg(g)), ", "@) + ">"@
    }
}

/// One per-platform type alias: guarded by that single atom's predicate,
/// named by the declaration's name with the atom's suffix, with the
/// declaration's own visibility and generic parameter list, and with the
/// declaration's deprecation marker carried over verbatim.
pub open spec fn render_alias(d: StructDecl, a: Platform) -> Seq<char> {
    single_guard(a) + "\n"@ + deprecation_prefix(d.deprecation@) + vis_prefix(d.vis@) + "type "@
        + d.name@ + atom_suffix(a) + generics_decl_text(d.generics@) + " = "@ + d.name@
        + alias_usage_text(d.generics@) + ";"@
}

/// The type aliases of every atom of the resolved set, in order, one block
/// per atom.
pub open spec fn render_aliases(d: StructDecl, atoms: Seq<Platform>) -> Seq<char> {
    join_sep(atoms.map_values(|a: Platform| render_alias(d, a)), "\n"@)
}

/// The two linked declarations of one atom of a module alias: the actual
/// platform module, carrying the author-declared visibility verbatim, and —
/// deliberately asymmetric — a re-export of it under the original logical
/// name that is never exported: external consumers must name the concrete
/// platform, internal code may use the portable alias.
pub open spec fn render_mod_pair(
    attrs: Seq<Seq<char>>,
    vis: Seq<char>,
    ident: Seq<char>,
    a: Platform,
) -> Seq<char> {
    single_guard(a) + "\n"@ + attr_lines(attrs) + vis_prefix(vis) + "mod "@ + atom_os_name(a)
        + ";\n"@ + single_guard(a) + "\n"@ + attr_lines(attrs) + "use "@ + atom_os_name(a)
        + " as "@ + ident + ";"@
}

/// The module declarations and aliases of every atom of the resolved set.
pub open spec fn render_mod_pairs(
    attrs: Seq<Seq<char>>,
    vis: Seq<char>,
    ident: Seq<char>,
    atoms: Seq<Platform>,
) -> Seq<char> {
    join_sep(atoms.map_values(|a: Platform| render_mod_pair(attrs, vis, ident, a)), "\n"@)
}

fn atom_suffix_str(a: Platform) -> (r: &'static str)
    requires
        a.is_atom(),
    ensures
        r@ == atom_suffix(a),
{
    match a {
        Platform::Linux => "Linux",
        Platform::Macos => "MacOS",
        Platform::Windows => "Windows",
        _ => "",
    }
}

fn atom_os_name_str(a: Platform) -> (r: &'static str)
    requires
        a.is_atom(),
    ensures
        r@ == atom_os_name(a),
{
    match a {
        Platform::Linux => "linux",
        Platform::Macos => "macos",
        Platform::Windows => "windows",
        _ => "",
    }
}

fn single_guard_string(a: Platform) -> (r: String)
    requires
        a.is_atom(),
    ensures
        r@ == single_guard(a),
{
    let mut s = String::from_str("#[cfg(");
    s.append("target_os = \"");
    s.append(atom_os_name_str(a));
    s.append("\"");
    s.append(")]");
    s
}

fn alias_usage_string(gs: &Vec<GenericParam>) -> (r: String)
    ensures
        r@ == alias_usage_text(gs@),
{
    if gs.len() == 0 {
        return String::new();
    }
    let mut parts: Vec<String> = Vec::new();
    let mut i: usize = 0;
    while i < gs.len()
        invariant
            i <= gs@.len(),
            parts.deep_view() =~= gs@.take(i as int).map_values(
                |g: GenericParam| alias_usage_arg(g),
            ),
        decreases gs@.len() - i,
    {
        let ghost pre = parts.deep_view();
        let part = match &gs[i] {
            GenericParam::Lifetime { name, bounds: _ } => {
                let mut s = String::from_str("'");
                s.append(name.as_str());
                s
            },
            GenericParam::Type { name, bounds: _ } => name.clone(),
            GenericParam::Const { name, ty: _ } => name.clone(),
        };
        parts.push(part);
        proof {
            assert(parts.deep_view() =~= pre.push(alias_usage_arg(gs@[i as int])));
            assert(parts.deep_view() =~= gs@.take(i + 1).map_values(
                |g: GenericParam| alias_usage_arg(g),
            ));
        }
        i += 1;
    }
    proof {
        assert(gs@.take(gs@.len() as int) =~= gs@);
    }
    let mut s = String::from_str("<");
    let joined = join_strings(&parts, ", ");
    s.append(joined.as_str());
    s.append(">");
    s
}

fn render_alias_string(d: &StructDecl, a: Platform) -> (r: String)
    requires
        a.is_atom(),
    ensures
        r@ == render_alias(*d, a),
{
    let mut s = single_guard_string(a);
    s.append("\n");
    if d.deprecation.unicode_len() > 0 {
        s.append(d.deprecation.as_str());
        s.append("\n");
    }
    if d.vis.unicode_len() > 0 {
        s.append(d.vis.as_str());
        s.append(" ");
    }
    s.append("type ");
    s.append(d.name.as_str());
    s.append(atom_suffix_str(a));
    let gen = generics_decl_string(&d.generics);
    s.append(gen.as_str());
    s.append(" = ");
    s.append(d.name.as_str());
    let usage = alias_usage_string(&d.generics);
    s.append(usage.as_str());
    s.append(";");
    s
}

/// Renders the per-platform type aliases of a type declaration for every
/// atom of the resolved set.
pub fn render_aliases_string(d: &StructDecl, atoms: &Vec<Platform>) -> (r: String)
    requires
        forall|k: int| 0 <= k < atoms@.len() ==> atoms@[k].is_atom(),
    ensures
        r@ == render_aliases(*d, atoms@),
{
    let mut parts: Vec<String> = Vec::new();
    let mut i: usize = 0;
    while i < atoms.len()
        invariant
            i <= atoms@.len(),
            forall|k: int| 0 <= k < atoms@.len() ==> atoms@[k].is_atom(),
            parts.deep_view() =~= atoms@.take(i as int).map_values(
                |a: Platform| render_alias(*d, a),
            ),
        decreases atoms@.len() - i,
    {
        let ghost pre = parts.deep_view();
        parts.push(render_alias_string(d, atoms[i]));
        proof {
            assert(parts.deep_view() =~= pre.push(render_alias(*d, atoms@[i as int])));
            assert(parts.deep_view() =~= atoms@.take(i + 1).map_values(
                |a: Platform| render_alias(*d, a),
            ));
        }
        i += 1;
    }
    proof {
        assert(atoms@.take(atoms@.len() as int) =~= atoms@);
    }
    join_strings(&parts, "\n")
}

fn render_mod_pair_string(attrs: &Vec<String>, vis: &str, ident: &str, a: Platform) -> (r: String)
    requires
        a.is_atom(),
    ensures
        r@ == render_mod_pair(attrs.deep_view(), vis@, ident@, a),
{
    let attr_text = attr_lines_string(attrs);
    let mut s = single_guard_string(a);
    s.append("\n");
    s.append(attr_text.as_str());
    if vis.unicode_len() > 0 {
        s.append(vis);
        s.append(" ");
    }
    s.append("mod ");
    s.append(atom_os_name_str(a));
    s.append(";\n");
    let guard2 = single_guard_string(a);
    s.append(guard2.as_str());
    s.append("\n");
    s.append(attr_text.as_str());
    s.append("use ");
    s.append(atom_os_name_str(a));
    s.append(" as ");
    s.append(ident);
    s.append(";");
    s
}

/// Renders the module declarations and private aliases of a module-alias
/// request for every atom of the resolved set.
pub fn render_mod_pairs_string(
    attrs: &Vec<String>,
    vis: &str,
    ident: &str,
    atoms: &Vec<Platform>,
) -> (r: String)
    requires
        forall|k: int| 0 <= k < atoms@.len() ==> atoms@[k].is_atom(),
    ensures
        r@ == render_mod_pairs(attrs.deep_view(), vis@, ident@, atoms@),
{
    let mut parts: Vec<String> = Vec::new();
    let mut i: usize = 0;
    while i < atoms.len()
        invariant
            i <= atoms@.len(),
            forall|k: int| 0 <= k < atoms@.len() ==> atoms@[k].is_atom(),
            parts.deep_view() =~= atoms@.take(i as int).map_values(
                |a: Platform| render_mod_pair(attrs.deep_view(), vis@, ident@, a),
            ),
        decreases atoms@.len() - i,
    {
        let ghost pre = parts.deep_view();
        parts.push(render_mod_pair_string(attrs, vis, ident, atoms[i]));
        proof {
            assert(parts.deep_view() =~= pre.push(
                render_mod_pair(attrs.deep_view(), vis@, ident@, atoms@[i as int]),
            ));
            assert(parts.deep_view() =~= atoms@.take(i + 1).map_values(
                |a: Platform| render_mod_pair(attrs.deep_view(), vis@, ident@, a),
            ));
        }
        i += 1;
    }
    proof {
        assert(atoms@.take(atoms@.len() as int) =~= atoms@);
    }
    join_strings(&parts, "\n")
}

} // verus!
