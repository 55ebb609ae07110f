//! The trait-bound assertion generator: for a type declaration and a list of
//! required capability bounds, a guard-scoped, zero-cost static check that
//! the type satisfies them all at once. The type is never instantiated with
//! dummy arguments: the check is itself generic, bounded by exactly the
//! required capabilities, and is applied to the declaration's own
//! still-generic type under its own generics and `where` clause.

use vstd::prelude::*;

use crate::decl::{GenericParam, StructDecl};
use crate::text::{join_sep, join_strings};
use crate::transform::{render_generic_decl, render_generic_decl_string};

verus! {

/// The declaration's generic parameters with the lifetimes left out, each
/// rendered as declared.
pub open spec fn assert_generics(gs: Seq<GenericParam>) -> Seq<Seq<char>>
    decreases gs.len(),
{
    if gs.len() == 0 {
        Seq::empty()
    } else {
        assert_generics(gs.drop_last()) + (match gs.last() {
            GenericParam::Lifetime { .. } => Seq::empty(),
            _ => seq![render_generic_decl(gs.last())],
        })
    }
}

/// The generic parameter list of the checking function: the declaration's
/// own, with lifetimes left out.
pub open spec fn assert_generics_text(gs: Seq<GenericParam>) -> Seq<char> {
    if assert_generics(gs).len() == 0 {
        Seq::empty()
    } else {
        "<"@ + join_sep(assert_generics(gs), ", "@) + ">"@
    }
}

/// One generic argument at the check site: a lifetime is erased, a type or
/// const parameter stands by name.
pub open spec fn check_usage_arg(g: GenericParam) -> Seq<char> {
    match g {
        GenericParam::Lifetime { .. } => "'_"@,
        GenericParam::Type { name, .. } => name@,
        GenericParam::Const { name, .. } => name@,
    }
}

/// The generic-argument list applied to the checked type.
pub open spec fn check_usage_text(gs: Seq<GenericParam>) -> Seq<char> {
    if gs.len() == 0 {
        Seq::empty()
    } else {
        "<"@ + join_sep(gs.map_values(|g: GenericParam| check_usage_arg(g)), ", "@) + ">"@
    }
}

/// A `where` clause preceded by a space, or nothing for none.
pub open spec fn where_suffix(w: Seq<char>) -> Seq<char> {
    if w.len() == 0 {
        Seq::empty()
    } else {
        " "@ + w
    }
}

/// The rendered assertion: under the guard, an anonymous constant holding a
/// checking function bounded by exactly the required capabilities, invoked
/// once with the declaration's own still-generic type.
pub open spec fn render_assertion(d: StructDecl, traits: Seq<Seq<char>>, guard: Seq<char>) -> Seq<
    char,
> {
    guard + "\n"@ + "const _: () = {\n    fn _assert_traits<T: "@ + join_sep(traits, " + "@)
        + " + ?Sized>() {}\n    fn _check"@ + assert_generics_text(d.generics@) + "()"@
        + where_suffix(d.where_clause@) + " { _assert_traits::<"@ + d.name@ + check_usage_text(
        d.generics@,
    ) + ">(); }\n};"@
}

fn check_usage_arg_string(g: &GenericParam) -> (r: String)
    ensures
        r@ == check_usage_arg(*g),
{
    match g {
        GenericParam::Lifetime { name: _, bounds: _ } => String::from_str("'_"),
        GenericParam::Type { name, bounds: _ } => name.clone(),
        GenericParam::Const { name, ty: _ } => name.clone(),
    }
}

fn check_usage_string(gs: &Vec<GenericParam>) -> (r: String)
    ensures
        r@ == check_usage_text(gs@),
{
    if gs.len() == 0 {
        return String::new();
    }
    let mut parts: Vec<String> = Vec::new();
    let mut i: usize = 0;
    while i < gs.len()
        invariant
            i <= gs@.len(),
            parts.deep_view() =~= gs@.take(i as int).map_values(
                |g: GenericParam| check_usage_arg(g),
            ),
        decreases gs@.len() - i,
    {
        let ghost pre = parts.deep_view();
        parts.push(check_usage_arg_string(&gs[i]));
        proof {
            assert(parts.deep_view() =~= pre.push(check_usage_arg(gs@[i as int])));
            assert(parts.deep_view() =~= gs@.take(i + 1).map_values(
                |g: GenericParam| check_usage_arg(g),
            ));
        }
        i += 1;
    }
    proof {
        assert(gs@.take(gs@.len() as int) =~= gs@);
    }
    let mut s = String::from_str("<");
    let joined = join_strings(&parts, ", ");
    s.append(joined.as_str());
    s.append(">");
    s
}

fn assert_generics_string(gs: &Vec<GenericParam>) -> (r: String)
    ensures
        r@ == assert_generics_text(gs@),
{
    let mut parts: Vec<String> = Vec::new();
    let mut i: usize = 0;
    while i < gs.len()
        invariant
            i <= gs@.len(),
            parts.deep_view() =~= assert_generics(gs@.take(i as int)),
        decreases gs@.len() - i,
    {
        let ghost pre = parts.deep_view();
        match &gs[i] {
            GenericParam::Lifetime { name: _, bounds: _ } => {},
            _ => {
                parts.push(render_generic_decl_string(&gs[i]));
            },
        }
        proof {
            let full = gs@;
            assert(full.take(i + 1).drop_last() =~= full.take(i as int));
            assert(full.take(i + 1).last() == full[i as int]);
            assert(parts.deep_view() =~= assert_generics(full.take(i + 1)));
        }
        i += 1;
    }
    proof {
        assert(gs@.take(gs@.len() as int) =~= gs@);
        assert(parts.deep_view() =~= assert_generics(gs@));
    }
    if parts.len() == 0 {
        proof {
            assert(parts.deep_view().len() == 0);
        }
        return String::new();
    }
    let mut s = String::from_str("<");
    let joined = join_strings(&parts, ", ");
    s.append(joined.as_str());
    s.append(">");
    s
}

/// Renders the guard-scoped static capability check for a type declaration.
pub fn render_assertion_string(d: &StructDecl, traits: &Vec<String>, guard: &str) -> (r: String)
    ensures
        r@ == render_assertion(*d, traits.deep_view(), guard@),
{
    let mut s = String::from_str(guard);
    s.append("\n");
    s.append("const _: () = {\n    fn _assert_traits<T: ");
    let joined = join_strings(traits, " + ");
    s.append(joined.as_str());
    s.append(" + ?Sized>() {}\n    fn _check");
    let gen = assert_generics_string(&d.generics);
    s.append(gen.as_str());
    s.append("()");
    if d.where_clause.unicode_len() > 0 {
        s.append(" ");
        s.append(d.where_clause.as_str());
    }
    s.append(" { _assert_traits::<");
    s.append(d.name.as_str());
    let usage = check_usage_string(&d.generics);
    s.append(usage.as_str());
    s.append(">(); }\n};");
    s
}

} // verus!
