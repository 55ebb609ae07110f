//! The declaration transformer: rewrites a signature-only callable
//! declaration into a guarded wrapper whose body forwards to the
//! conventionally named platform-specific implementation.

use vstd::prelude::*;

use crate::decl::{CallableDecl, GenericParam, Param};
use crate::diag::{Anchor, Diagnostic};
use crate::text::{join_sep, join_strings};

verus! {

/// The rendered form of one parameter, as declared.
pub open spec fn render_param(p: Param) -> Seq<char> {
    match p {
        Param::Receiver { text } => text@,
        Param::Named { mutable, name, ty } => (if mutable {
            "mut "@
        } else {
            Seq::empty()
        }) + name@ + ": "@ + ty@,
        Param::Pattern { text } => text@,
    }
}

/// The rendered forms of the parameters, in order.
pub open spec fn render_params(ps: Seq<Param>) -> Seq<Seq<char>> {
    ps.map_values(|p: Param| render_param(p))
}

/// The rendered form of one generic parameter, as declared.
pub open spec fn render_generic_decl(g: GenericParam) -> Seq<char> {
    match g {
        GenericParam::Lifetime { name, bounds } => "'"@ + name@ + (if bounds@.len() == 0 {
            Seq::empty()
        } else {
            ": "@ + bounds@
        }),
        GenericParam::Type { name, bounds } => name@ + (if bounds@.len() == 0 {
            Seq::empty()
        } else {
            ": "@ + bounds@
        }),
        GenericParam::Const { name, ty } => "const "@ + name@ + ": "@ + ty@,
    }
}

/// The rendered generic parameter list, as declared: empty when there are no
/// parameters, otherwise angle-bracketed and comma-separated.
pub open spec fn generics_decl_text(gs: Seq<GenericParam>) -> Seq<char> {
    if gs.len() == 0 {
        Seq::empty()
    } else {
        "<"@ + join_sep(gs.map_values(|g: GenericParam| render_generic_decl(g)), ", "@) + ">"@
    }
}

/// A visibility followed by a space, or nothing for inherited visibility.
pub open spec fn vis_prefix(v: Seq<char>) -> Seq<char> {
    if v.len() == 0 {
        Seq::empty()
    } else {
        v + " "@
    }
}

/// The rendered signature of a callable declaration.
pub open spec fn render_sig(d: CallableDecl) -> Seq<char> {
    vis_prefix(d.vis@) + (if d.is_const {
        "const "@
    } else {
        Seq::empty()
    }) + (if d.is_async {
        "async "@
    } else {
        Seq::empty()
    }) + (if d.is_unsafe {
        "unsafe "@
    } else {
        Seq::empty()
    }) + "fn "@ + d.name@ + generics_decl_text(d.generics@) + "("@ + join_sep(
        render_params(d.params@),
        ", "@,
    ) + ")"@ + (match d.ret {
        Option::None => Seq::empty(),
        Option::Some(t) => " -> "@ + t@,
    })
}

/// The arguments forwarded to the implementation call: the receiver forwards
/// as `self`, a named parameter by its bare name (binding modifiers are
/// stripped: the call site reads the binding, it does not declare it), and a
/// pattern-bound parameter is not forwarded at all.
pub open spec fn forward_args(ps: Seq<Param>) -> Seq<Seq<char>>
    decreases ps.len(),
{
    if ps.len() == 0 {
        Seq::empty()
    } else {
        forward_args(ps.drop_last()) + (match ps.last() {
            Param::Receiver { .. } => seq!["self"@],
            Param::Named { name, .. } => seq![name@],
            Param::Pattern { .. } => Seq::empty(),
        })
    }
}

/// The generic arguments forwarded to the implementation call: type and
/// const parameters by name, in declared order; lifetimes are never
/// forwarded (they are inferred).
pub open spec fn generic_args(gs: Seq<GenericParam>) -> Seq<Seq<char>>
    decreases gs.len(),
{
    if gs.len() == 0 {
        Seq::empty()
    } else {
        generic_args(gs.drop_last()) + (match gs.last() {
            GenericParam::Lifetime { .. } => Seq::empty(),
            GenericParam::Type { name, .. } => seq![name@],
            GenericParam::Const { name, .. } => seq![name@],
        })
    }
}

/// The explicit generic-argument list of the implementation call; empty when
/// no type or const parameter is declared.
pub open spec fn generic_args_text(gs: Seq<GenericParam>) -> Seq<char> {
    if generic_args(gs).len() == 0 {
        Seq::empty()
    } else {
        "::<"@ + join_sep(generic_args(gs), ", "@) + ">"@
    }
}

/// The forwarding call: the implementation is the declaration's name
/// suffixed with `_impl`, called through `Self`; an asynchronous declaration
/// suspends on the call; a unit-returning declaration discards the value by
/// closing the call as a statement.
pub open spec fn render_call(d: CallableDecl) -> Seq<char> {
    "Self::"@ + d.name@ + "_impl"@ + generic_args_text(d.generics@) + "("@ + join_sep(
        forward_args(d.params@),
        ", "@,
    ) + ")"@ + (if d.is_async {
        ".await"@
    } else {
        Seq::empty()
    }) + (if d.ret is None {
        ";"@
    } else {
        Seq::empty()
    })
}

/// The wrapper body: the forwarding call, acknowledged as an unsafe
/// operation when the declaration is unsafe.
pub open spec fn render_body(d: CallableDecl) -> Seq<char> {
    if d.is_unsafe {
        "unsafe { "@ + render_call(d) + " }"@
    } else {
        render_call(d)
    }
}

/// The carried-over attributes, one per line.
pub open spec fn attr_lines(attrs: Seq<Seq<char>>) -> Seq<char>
    decreases attrs.len(),
{
    if attrs.len() == 0 {
        Seq::empty()
    } else {
        attr_lines(attrs.drop_last()) + attrs.last() + "\n"@
    }
}

/// The whole wrapper declaration: the guard, the carried-over attributes,
/// the unchanged signature, and the forwarding body.
pub open spec fn render_wrapper(d: CallableDecl, guard: Seq<char>) -> Seq<char> {
    guard + "\n"@ + attr_lines(d.attrs.deep_view()) + render_sig(d) + " {\n    "@ + render_body(d)
        + "\n}"@
}

/// The positions of the pattern-bound parameters, in order.
pub open spec fn pattern_indices(ps: Seq<Param>) -> Seq<int>
    decreases ps.len(),
{
    if ps.len() == 0 {
        Seq::empty()
    } else {
        pattern_indices(ps.drop_last()) + (match ps.last() {
            Param::Pattern { .. } => seq![ps.len() - 1],
            _ => Seq::empty(),
        })
    }
}

/// The message of the diagnostic for a pattern-bound parameter.
pub open spec fn pattern_err_msg() -> Seq<char> {
    "complex patterns in arguments are not supported: give the argument a name"@
}

/// The message of the diagnostic for a variadic parameter list.
pub open spec fn variadic_err_msg() -> Seq<char> {
    "variadic arguments are not permitted"@
}

/// What the transformer yields: the wrapper declaration, unless the
/// declaration was rejected outright, and the diagnostics gathered along the
/// way — errors are additive, not short-circuiting.
pub struct TransformResult {
    pub wrapper: Option<String>,
    pub diagnostics: Vec<Diagnostic>,
}

fn render_param_exec(p: &Param) -> (r: String)
    ensures
        r@ == render_param(*p),
{
    match p {
        Param::Receiver { text } => text.clone(),
        Param::Named { mutable, name, ty } => {
            let mut s = if *mutable {
                String::from_str("mut ")
            } else {
                String::new()
            };
            s.append(name.as_str());
            s.append(": ");
            s.append(ty.as_str());
            s
        },
        Param::Pattern { text } => text.clone(),
    }
}

/// Renders one generic parameter as declared.
pub fn render_generic_decl_string(g: &GenericParam) -> (r: String)
    ensures
        r@ == render_generic_decl(*g),
{
    match g {
        GenericParam::Lifetime { name, bounds } => {
            let mut s = String::from_str("'");
            s.append(name.as_str());
            if bounds.unicode_len() > 0 {
                s.append(": ");
                s.append(bounds.as_str());
            }
            s
        },
        GenericParam::Type { name, bounds } => {
            let mut s = String::new();
            s.append(name.as_str());
            if bounds.unicode_len() > 0 {
                s.append(": ");
                s.append(bounds.as_str());
            }
            s
        },
        GenericParam::Const { name, ty } => {
            let mut s = String::from_str("const ");
            s.append(name.as_str());
            s.append(": ");
            s.append(ty.as_str());
            s
        },
    }
}

/// Renders the generic parameter list of a declaration, as declared.
pub fn generics_decl_string(gs: &Vec<GenericParam>) -> (r: String)
    ensures
        r@ == generics_decl_text(gs@),
{
    if gs.len() == 0 {
        return String::new();
    }
    let mut parts: Vec<String> = Vec::new();
    let mut i: usize = 0;
    while i < gs.len()
        invariant
            i <= gs@.len(),
            parts.deep_view() =~= gs@.take(i as int).map_values(
                |g: GenericParam| render_generic_decl(g),
            ),
        decreases gs@.len() - i,
    {
        let ghost pre = parts.deep_view();
        parts.push(render_generic_decl_string(&gs[i]));
        proof {
            assert(parts.deep_view() =~= pre.push(render_generic_decl(gs@[i as int])));
            assert(parts.deep_view() =~= gs@.take(i + 1).map_values(
                |g: GenericParam| render_generic_decl(g),
            ));
        }
        i += 1;
    }
    proof {
        assert(gs@.take(gs@.len() as int) =~= gs@);
    }
    let mut s = String::from_str("<");
    let joined = join_strings(&parts, ", ");
    s.append(joined.as_str());
    s.append(">");
    s
}

/// Renders the unchanged signature of a callable declaration.
pub fn render_sig_string(d: &CallableDecl) -> (r: String)
    ensures
        r@ == render_sig(*d),
{
    let mut s = String::new();
    if d.vis.unicode_len() > 0 {
        s.append(d.vis.as_str());
        s.append(" ");
    }
    if d.is_const {
        s.append("const ");
    }
    if d.is_async {
        s.append("async ");
    }
    if d.is_unsafe {
        s.append("unsafe ");
    }
    s.append("fn ");
    s.append(d.name.as_str());
    let gen = generics_decl_string(&d.generics);
    s.append(gen.as_str());
    s.append("(");
    let mut parts: Vec<String> = Vec::new();
    let mut i: usize = 0;
    while i < d.params.len()
        invariant
            i <= d.params@.len(),
            parts.deep_view() =~= render_params(d.params@.take(i as int)),
        decreases d.params@.len() - i,
    {
        let ghost pre = parts.deep_view();
        parts.push(render_param_exec(&d.params[i]));
        proof {
            assert(parts.deep_view() =~= pre.push(render_param(d.params@[i as int])));
            assert(parts.deep_view() =~= render_params(d.params@.take(i + 1)));
        }
        i += 1;
    }
    proof {
        assert(d.params@.take(d.params@.len() as int) =~= d.params@);
    }
    let joined = join_strings(&parts, ", ");
    s.append(joined.as_str());
    s.append(")");
    match &d.ret {
        Option::None => {},
        Option::Some(t) => {
            s.append(" -> ");
            s.append(t.as_str());
        },
    }
    s
}

/// Renders the carried-over attributes, one per line.
pub fn attr_lines_string(attrs: &Vec<String>) -> (r: String)
    ensures
        r@ == attr_lines(attrs.deep_view()),
{
    let mut s = String::new();
    let mut i: usize = 0;
    while i < attrs.len()
        invariant
            i <= attrs@.len(),
            s@ == attr_lines(attrs.deep_view().take(i as int)),
        decreases attrs@.len() - i,
    {
        s.append(attrs[i].as_str());
        s.append("\n");
        proof {
            let dv = attrs.deep_view();
            assert(dv.take(i + 1).drop_last() =~= dv.take(i as int));
            assert(dv.take(i + 1).last() == dv[i as int]);
        }
        i += 1;
    }
    proof {
        assert(attrs.deep_view().take(attrs@.len() as int) =~= attrs.deep_view());
    }
    s
}

/// Rewrites a signature-only callable declaration into a guarded forwarding
/// wrapper. A variadic declaration is rejected outright: no wrapper, one
/// diagnostic at the variadic marker. A pattern-bound parameter yields one
/// diagnostic at that parameter and is left out of the forwarding call,
/// while the rest of the wrapper is still produced.
pub fn transform(d: &CallableDecl, guard: &str) -> (r: TransformResult)
    ensures
        d.variadic ==> r.wrapper is None && r.diagnostics@.len() == 1
            && r.diagnostics@[0].message@ == variadic_err_msg() && r.diagnostics@[0].anchor
            == Anchor::Variadic,
        !d.variadic ==> {
            &&& r.wrapper matches Some(w) && w@ == render_wrapper(*d, guard@)
            &&& r.diagnostics@.len() == pattern_indices(d.params@).len()
            &&& forall|k: int|
                0 <= k < r.diagnostics@.len() ==> r.diagnostics@[k].message@ == pattern_err_msg()
                    && r.diagnostics@[k].anchor == (Anchor::Param {
                    index: pattern_indices(d.params@)[k] as usize,
                })
        },
{
    if d.variadic {
        let mut diags: Vec<Diagnostic> = Vec::new();
        diags.push(
            Diagnostic::new(
                String::from_str("variadic arguments are not permitted"),
                Anchor::Variadic,
            ),
        );
        return TransformResult { wrapper: None, diagnostics: diags };
    }
    let mut args: Vec<String> = Vec::new();
    let mut diags: Vec<Diagnostic> = Vec::new();
    let mut i: usize = 0;
    while i < d.params.len()
        invariant
            i <= d.params@.len(),
            args.deep_view() =~= forward_args(d.params@.take(i as int)),
            diags@.len() == pattern_indices(d.params@.take(i as int)).len(),
            forall|k: int|
                0 <= k < diags@.len() ==> diags@[k].message@ == pattern_err_msg()
                    && diags@[k].anchor == (Anchor::Param {
                    index: pattern_indices(d.params@.take(i as int))[k] as usize,
                }),
            pattern_indices(d.params@.take(i as int)).is_prefix_of(pattern_indices(d.params@)),
        decreases d.params@.len() - i,
    {
        let ghost pre_args = args.deep_view();
        let ghost pre_pat = pattern_indices(d.params@.take(i as int));
        match &d.params[i] {
            Param::Receiver { text: _ } => {
                args.push(String::from_str("self"));
            },
            Param::Named { mutable: _, name, ty: _ } => {
                args.push(name.clone());
            },
            Param::Pattern { text: _ } => {
                diags.push(
                    Diagnostic::new(
                        String::from_str(
                            "complex patterns in arguments are not supported: give the argument a name",
                        ),
                        Anchor::Param { index: i },
                    ),
                );
            },
        }
        proof {
            let full = d.params@;
            assert(full.take(i + 1).drop_last() =~= full.take(i as int));
            assert(full.take(i + 1).last() == full[i as int]);
            assert(args.deep_view() =~= forward_args(full.take(i + 1)));
            assert(pattern_indices(full.take(i + 1)) == pre_pat + (match full[i as int] {
                Param::Pattern { .. } => seq![i as int],
                _ => Seq::<int>::empty(),
            }));
            lemma_pattern_indices_prefix(full, i + 1);
        }
        i += 1;
    }
    proof {
        assert(d.params@.take(d.params@.len() as int) =~= d.params@);
    }
    let mut gargs: Vec<String> = Vec::new();
    let mut j: usize = 0;
    while j < d.generics.len()
        invariant
            j <= d.generics@.len(),
            gargs.deep_view() =~= generic_args(d.generics@.take(j as int)),
        decreases d.generics@.len() - j,
    {
        let ghost pre = gargs.deep_view();
        match &d.generics[j] {
            GenericParam::Lifetime { name: _, bounds: _ } => {},
            GenericParam::Type { name, bounds: _ } => {
                gargs.push(name.clone());
            },
            GenericParam::Const { name, ty: _ } => {
                gargs.push(name.clone());
            },
        }
        proof {
            let full = d.generics@;
            assert(full.take(j + 1).drop_last() =~= full.take(j as int));
            assert(full.take(j + 1).last() == full[j as int]);
            assert(gargs.deep_view() =~= generic_args(full.take(j + 1)));
        }
        j += 1;
    }
    proof {
        assert(d.generics@.take(d.generics@.len() as int) =~= d.generics@);
    }
    let mut call = String::from_str("Self::");
    call.append(d.name.as_str());
    call.append("_impl");
    if gargs.len() > 0 {
        call.append("::<");
        let joined = join_strings(&gargs, ", ");
        call.append(joined.as_str());
        call.append(">");
    }
    call.append("(");
    let joined_args = join_strings(&args, ", ");
    call.append(joined_args.as_str());
    call.append(")");
    if d.is_async {
        call.append(".await");
    }
    if d.ret.is_none() {
        call.append(";");
    }
    assert(call@ == render_call(*d));
    let body = if d.is_unsafe {
        let mut b = String::from_str("unsafe { ");
        b.append(call.as_str());
        b.append(" }");
        b
    } else {
        call
    };
    let sig = render_sig_string(d);
    let attrs = attr_lines_string(&d.attrs);
    let mut w = String::from_str(guard);
    w.append("\n");
    w.append(attrs.as_str());
    w.append(sig.as_str());
    w.append(" {\n    ");
    w.append(body.as_str());
    w.append("\n}");
    TransformResult { wrapper: Some(w), diagnostics: diags }
}

/// The pattern positions of a prefix are a prefix of the pattern positions.
proof fn lemma_pattern_indices_prefix(ps: Seq<Param>, n: int)
    requires
        0 <= n <= ps.len(),
    ensures
        pattern_indices(ps.take(n)).is_prefix_of(pattern_indices(ps)),
    decreases ps.len() - n,
{
    if n == ps.len() {
        assert(ps.take(n) =~= ps);
    } else {
        lemma_pattern_indices_prefix(ps, n + 1);
        assert(ps.take(n + 1).drop_last() =~= ps.take(n));
        assert(ps.take(n + 1).last() == ps[n]);
        assert(pattern_indices(ps.take(n)).is_prefix_of(pattern_indices(ps.take(n + 1))));
    }
}

} // verus!
