//! The engine's entry points, one per syntactic category: each parses the
//! option block, resolves it to an atom set and a guard, and hands the guard
//! to the generator that fits the declaration.

use vstd::prelude::*;

use crate::alias::{render_aliases, render_aliases_string, render_mod_pairs, render_mod_pairs_string};
use crate::assertion::{render_assertion, render_assertion_string};
use crate::decl::{CallableDecl, FnItem, ModInput, StructDecl, UseTreeShape};
use crate::diag::{Anchor, Diagnostic};
use crate::parse::{
    parse_err_msg, spec_parse_options, with_allow_default, OptionsV, StructOptions,
};
use crate::resolve::{empty_set_msg, spec_allowed, spec_guard, AtomSet, AttrOptions};
use crate::transform::{
    pattern_err_msg, pattern_indices, render_wrapper, transform, variadic_err_msg,
};

verus! {

/// What a generator yields: the generated source text and the diagnostics
/// gathered along the way. Text and diagnostics can both be present: errors
/// are reported additively wherever generation can still proceed.
#[derive(Clone, Debug)]
pub struct GenOutput {
    pub text: String,
    pub diagnostics: Vec<Diagnostic>,
}

/// The option block's content after the parse-time allow default.
pub open spec fn parsed_options(attr: Seq<char>, allow_traits: bool) -> OptionsV {
    with_allow_default(spec_parse_options(attr, allow_traits)->0)
}

/// The resolved platform set of the option block.
pub open spec fn resolved_set(attr: Seq<char>, allow_traits: bool) -> AtomSet {
    spec_allowed(
        parsed_options(attr, allow_traits).allow,
        parsed_options(attr, allow_traits).exclude,
    )
}

/// An output carrying no text and exactly the option block's fatal parse
/// diagnostic.
pub open spec fn parse_failure_out(r: GenOutput) -> bool {
    r.text@.len() == 0 && r.diagnostics@.len() == 1 && r.diagnostics@[0].message@
        == parse_err_msg() && r.diagnostics@[0].anchor == Anchor::OptionBlock
}

/// The resolver's diagnostics alone: one conflict report when the resolved
/// set is empty, nothing otherwise.
pub open spec fn conflict_diags(allowed: AtomSet, ds: Seq<Diagnostic>) -> bool {
    if allowed.is_empty() {
        ds.len() == 1 && ds[0].message@ == empty_set_msg() && ds[0].anchor == Anchor::OptionBlock
    } else {
        ds.len() == 0
    }
}

/// How many diagnostics the resolver contributes before a generator's own.
pub open spec fn conflict_count(allowed: AtomSet) -> int {
    if allowed.is_empty() {
        1int
    } else {
        0int
    }
}

/// An output whose generation was refused: no text, the resolver's
/// diagnostics, and one fatal diagnostic with this message and anchor.
pub open spec fn fatal_out(r: GenOutput, allowed: AtomSet, msg: Seq<char>, anchor: Anchor) -> bool {
    let pre = conflict_count(allowed);
    r.text@.len() == 0 && r.diagnostics@.len() == pre + 1 && r.diagnostics@[pre].message@ == msg
        && r.diagnostics@[pre].anchor == anchor
}

/// The resolver's conflict diagnostic, when the resolved set is empty,
/// stands first in the output.
pub open spec fn conflict_first(r: GenOutput, allowed: AtomSet) -> bool {
    allowed.is_empty() ==> r.diagnostics@.len() >= 1 && r.diagnostics@[0].message@
        == empty_set_msg() && r.diagnostics@[0].anchor == Anchor::OptionBlock
}

fn parse_failure_output(d: Diagnostic) -> (r: GenOutput)
    ensures
        r.text@.len() == 0 && r.diagnostics@.len() == 1 && r.diagnostics@[0] == d,
{
    let mut ds: Vec<Diagnostic> = Vec::new();
    ds.push(d);
    GenOutput { text: String::new(), diagnostics: ds }
}

/// Applies the platform configuration to a trait method definition: the
/// guard is attached to the unchanged item.
pub fn sys_trait_function(attr: &str, item_text: &str) -> (r: GenOutput)
    ensures
        spec_parse_options(attr@, false) is None ==> parse_failure_out(r),
        spec_parse_options(attr@, false) is Some ==> ({
            let allowed = resolved_set(attr@, false);
            &&& r.text@ == spec_guard(allowed) + "\n"@ + item_text@
            &&& conflict_diags(allowed, r.diagnostics@)
        }),
{
    match AttrOptions::parse(attr) {
        Err(d) => parse_failure_output(d),
        Ok(o) => {
            let res = o.convert_to_cfg_attr();
            let mut text = res.guard;
            text.append("\n");
            text.append(item_text);
            let mut ds: Vec<Diagnostic> = Vec::new();
            match res.diagnostic {
                Some(d) => ds.push(d),
                None => {},
            }
            GenOutput { text, diagnostics: ds }
        },
    }
}

/// Generates a platform-dependent dispatching method: a signature-only
/// declaration becomes a guarded wrapper that forwards to the conventionally
/// named implementation; an already-bodied declaration only receives the
/// guard (the plain conditional mode).
pub fn sys_function(attr: &str, item: &FnItem) -> (r: GenOutput)
    ensures
        spec_parse_options(attr@, false) is None ==> parse_failure_out(r),
        spec_parse_options(attr@, false) is Some ==> (*item matches FnItem::Bodied(t) ==> ({
            let allowed = resolved_set(attr@, false);
            &&& r.text@ == spec_guard(allowed) + "\n"@ + t@
            &&& conflict_diags(allowed, r.diagnostics@)
        })),
        spec_parse_options(attr@, false) is Some ==> (*item matches FnItem::Signature(d) ==> ({
            let allowed = resolved_set(attr@, false);
            let pre = conflict_count(allowed);
            &&& conflict_first(r, allowed)
            &&& d.variadic ==> r.text@.len() == 0 && r.diagnostics@.len() == pre + 1
                && r.diagnostics@[pre].message@ == variadic_err_msg() && r.diagnostics@[pre].anchor
                == Anchor::Variadic
            &&& !d.variadic ==> r.text@ == render_wrapper(d, spec_guard(allowed))
                && r.diagnostics@.len() == pre + pattern_indices(d.params@).len() && (forall|k: int|
                0 <= k < pattern_indices(d.params@).len() ==> r.diagnostics@[pre + k].message@
                    == pattern_err_msg() && r.diagnostics@[pre + k].anchor == (Anchor::Param {
                    index: pattern_indices(d.params@)[k] as usize,
                }))
        })),
{
    match AttrOptions::parse(attr) {
        Err(d) => parse_failure_output(d),
        Ok(o) => {
            let res = o.convert_to_cfg_attr();
            let mut ds: Vec<Diagnostic> = Vec::new();
            match res.diagnostic {
                Some(d) => ds.push(d),
                None => {},
            }
            match item {
                FnItem::Bodied(t) => {
                    let mut text = res.guard;
                    text.append("\n");
                    text.append(t.as_str());
                    GenOutput { text, diagnostics: ds }
                },
                FnItem::Signature(d) => {
                    let tr = transform(d, res.guard.as_str());
                    let mut tr_ds = tr.diagnostics;
                    ds.append(&mut tr_ds);
                    let text = match tr.wrapper {
                        Some(w) => w,
                        None => String::new(),
                    };
                    GenOutput { text, diagnostics: ds }
                },
            }
        },
    }
}

/// Generates the platform artifacts of a type declaration: the guard on the
/// unchanged item, a guard-scoped capability check when capabilities were
/// required, and one guarded type alias per allowed atom.
pub fn sys_struct(attr: &str, d: &StructDecl, item_text: &str) -> (r: GenOutput)
    ensures
        spec_parse_options(attr@, true) is None ==> parse_failure_out(r),
        spec_parse_options(attr@, true) is Some ==> ({
            let m = parsed_options(attr@, true);
            let allowed = resolved_set(attr@, true);
            &&& r.text@ == spec_guard(allowed) + "\n"@ + item_text@ + (if m.traits.len() > 0 {
                "\n"@ + render_assertion(*d, m.traits, spec_guard(allowed))
            } else {
                Seq::<char>::empty()
            }) + (if allowed.spec_atoms().len() > 0 {
                "\n"@ + render_aliases(*d, allowed.spec_atoms())
            } else {
                Seq::<char>::empty()
            })
            &&& conflict_diags(allowed, r.diagnostics@)
        }),
{
    match StructOptions::parse(attr) {
        Err(diag) => parse_failure_output(diag),
        Ok(o) => {
            let res = o.options.convert_to_cfg_attr();
            let mut text = res.guard.clone();
            text.append("\n");
            text.append(item_text);
            if o.traits.len() > 0 {
                text.append("\n");
                let assertion = render_assertion_string(d, &o.traits, res.guard.as_str());
                text.append(assertion.as_str());
            }
            let atoms = res.allowed.atoms();
            if atoms.len() > 0 {
                proof {
                    res.allowed.lemma_atoms_are_atoms();
                }
                text.append("\n");
                let aliases = render_aliases_string(d, &atoms);
                text.append(aliases.as_str());
            }
            let mut ds: Vec<Diagnostic> = Vec::new();
            match res.diagnostic {
                Some(diag) => ds.push(diag),
                None => {},
            }
            GenOutput { text, diagnostics: ds }
        },
    }
}

/// The message for a re-export with a leading path separator.
pub open spec fn lead_colon_msg() -> Seq<char> {
    "absolute paths are not supported on a re-export: use a local identifier"@
}

/// The message for a re-export tree that is not a single local identifier.
pub open spec fn use_tree_err_msg(t: UseTreeShape) -> Seq<char> {
    match t {
        UseTreeShape::Name { .. } => Seq::empty(),
        UseTreeShape::Path => "a re-export of a nested path is not supported: use a single local identifier"@,
        UseTreeShape::Rename => "a re-export with a rename is not supported: use a single local identifier"@,
        UseTreeShape::Glob => "a glob re-export is not supported: use a single local identifier"@,
        UseTreeShape::Group => "a grouped re-export is not supported: use a single local identifier"@,
    }
}

/// The message for an unsafe module declaration.
pub open spec fn mod_unsafe_msg() -> Seq<char> {
    "an unsafe module declaration is not supported"@
}

/// The message for a module declaration with an inline body.
pub open spec fn mod_body_msg() -> Seq<char> {
    "a module with an inline body is not supported: declare it without one so the backing file can be swapped per platform"@
}

/// The message for an item that is neither a module declaration nor a
/// re-export.
pub open spec fn mod_item_msg() -> Seq<char> {
    "expected a module declaration or a re-export of a single local identifier"@
}

fn use_tree_err_string(t: &UseTreeShape) -> (r: String)
    ensures
        r@ == use_tree_err_msg(*t),
{
    match t {
        UseTreeShape::Name { ident: _ } => String::new(),
        UseTreeShape::Path => String::from_str(
            "a re-export of a nested path is not supported: use a single local identifier",
        ),
        UseTreeShape::Rename => String::from_str(
            "a re-export with a rename is not supported: use a single local identifier",
        ),
        UseTreeShape::Glob => String::from_str(
            "a glob re-export is not supported: use a single local identifier",
        ),
        UseTreeShape::Group => String::from_str(
            "a grouped re-export is not supported: use a single local identifier",
        ),
    }
}

/// Generates the platform modules of a module-alias request: under each
/// allowed atom's guard, the actual platform module with the author-declared
/// visibility, and a private re-export of it under the original logical
/// name.
pub fn platform_mod(attr: &str, item: &ModInput) -> (r: GenOutput)
    ensures
        spec_parse_options(attr@, false) is None ==> parse_failure_out(r),
        spec_parse_options(attr@, false) is Some ==> ({
            let allowed = resolved_set(attr@, false);
            &&& conflict_first(r, allowed)
            &&& (match *item {
                ModInput::Reexport { attrs, vis, leading_colon, tree } => {
                    if leading_colon {
                        fatal_out(r, allowed, lead_colon_msg(), Anchor::UseLeadingColon)
                    } else {
                        match tree {
                            UseTreeShape::Name { ident } => r.text@ == render_mod_pairs(
                                attrs.deep_view(),
                                vis@,
                                ident@,
                                allowed.spec_atoms(),
                            ) && r.diagnostics@.len() == conflict_count(allowed),
                            _ => fatal_out(r, allowed, use_tree_err_msg(tree), Anchor::UseTree),
                        }
                    }
                },
                ModInput::Module { attrs, vis, is_unsafe, has_body, ident } => {
                    if is_unsafe {
                        fatal_out(r, allowed, mod_unsafe_msg(), Anchor::ModUnsafety)
                    } else if has_body {
                        fatal_out(r, allowed, mod_body_msg(), Anchor::ModDecl)
                    } else {
                        r.text@ == render_mod_pairs(
                            attrs.deep_view(),
                            vis@,
                            ident@,
                            allowed.spec_atoms(),
                        ) && r.diagnostics@.len() == conflict_count(allowed)
                    }
                },
                ModInput::Unrecognized => fatal_out(r, allowed, mod_item_msg(), Anchor::Item),
            })
        }),
{
    match AttrOptions::parse(attr) {
        Err(d) => parse_failure_output(d),
        Ok(o) => {
            let res = o.convert_to_cfg_attr();
            let mut ds: Vec<Diagnostic> = Vec::new();
            match res.diagnostic {
                Some(d) => ds.push(d),
                None => {},
            }
            proof {
                res.allowed.lemma_atoms_are_atoms();
            }
            match item {
                ModInput::Reexport { attrs, vis, leading_colon, tree } => {
                    if *leading_colon {
                        ds.push(
                            Diagnostic::new(
                                String::from_str(
                                    "absolute paths are not supported on a re-export: use a local identifier",
                                ),
                                Anchor::UseLeadingColon,
                            ),
                        );
                        GenOutput { text: String::new(), diagnostics: ds }
                    } else {
                        match tree {
                            UseTreeShape::Name { ident } => {
                                let atoms = res.allowed.atoms();
                                let text = render_mod_pairs_string(
                                    attrs,
                                    vis.as_str(),
                                    ident.as_str(),
                                    &atoms,
                                );
                                GenOutput { text, diagnostics: ds }
                            },
                            _ => {
                                ds.push(Diagnostic::new(use_tree_err_string(tree), Anchor::UseTree));
                                GenOutput { text: String::new(), diagnostics: ds }
                            },
                        }
                    }
                },
                ModInput::Module { attrs, vis, is_unsafe, has_body, ident } => {
                    if *is_unsafe {
                        ds.push(
                            Diagnostic::new(
                                String::from_str("an unsafe module declaration is not supported"),
                                Anchor::ModUnsafety,
                            ),
                        );
                        GenOutput { text: String::new(), diagnostics: ds }
                    } else if *has_body {
                        ds.push(
                            Diagnostic::new(
                                String::from_str(
                                    "a module with an inline body is not supported: declare it without one so the backing file can be swapped per platform",
                                ),
                                Anchor::ModDecl,
                            ),
                        );
                        GenOutput { text: String::new(), diagnostics: ds }
                    } else {
                        let atoms = res.allowed.atoms();
                        let text = render_mod_pairs_string(
                            attrs,
                            vis.as_str(),
                            ident.as_str(),
                            &atoms,
                        );
                        GenOutput { text, diagnostics: ds }
                    }
                },
                ModInput::Unrecognized => {
                    ds.push(
                        Diagnostic::new(
                            String::from_str(
                                "expected a module declaration or a re-export of a single local identifier",
                            ),
                            Anchor::Item,
                        ),
                    );
                    GenOutput { text: String::new(), diagnostics: ds }
                },
            }
        },
    }
}

} // verus!
