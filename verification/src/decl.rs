//! The structured declarations the engine consumes. The host's parser turns
//! the annotated source item into one of these trees; every piece of type or
//! bound text is carried verbatim, ready for re-serialization.

use vstd::prelude::*;

verus! {

/// One parameter of a callable declaration.
#[derive(Clone, Debug)]
pub enum Param {
    /// A self-receiver, carried verbatim (for example `&self` or `&mut self`).
    Receiver { text: String },
    /// A named binding with its type; `mutable` records a `mut` binding
    /// modifier, which the forwarding call strips.
    Named { mutable: bool, name: String, ty: String },
    /// A parameter bound by a non-simple destructuring pattern, carried
    /// verbatim. Such a parameter cannot be forwarded by name.
    Pattern { text: String },
}

/// One generic parameter of a declaration. Bound text is carried verbatim;
/// an empty bound text means the parameter carries no bounds.
#[derive(Clone, Debug)]
pub enum GenericParam {
    /// A lifetime parameter; `name` is spelled without the leading tick.
    Lifetime { name: String, bounds: String },
    /// A type parameter.
    Type { name: String, bounds: String },
    /// A const parameter with the type of its values.
    Const { name: String, ty: String },
}

/// The parsed shape of a function or method declaration.
#[derive(Clone, Debug)]
pub struct CallableDecl {
    /// Attributes of the declaration other than the engine's own, each
    /// carried verbatim, one per line.
    pub attrs: Vec<String>,
    /// The visibility, verbatim; empty for inherited visibility.
    pub vis: String,
    pub is_const: bool,
    pub is_async: bool,
    pub is_unsafe: bool,
    pub name: String,
    pub generics: Vec<GenericParam>,
    pub params: Vec<Param>,
    /// Whether the parameter list ends in a variadic marker.
    pub variadic: bool,
    /// The return type, verbatim; `None` means unit.
    pub ret: Option<String>,
}

/// The parsed shape of a struct or type declaration.
#[derive(Clone, Debug)]
pub struct StructDecl {
    /// The visibility, verbatim; empty for inherited visibility.
    pub vis: String,
    pub name: String,
    pub generics: Vec<GenericParam>,
    /// The `where` clause, verbatim; empty for none.
    pub where_clause: String,
    /// A deprecation marker attribute, verbatim, propagated to every
    /// generated alias; empty for none.
    pub deprecation: String,
}

/// The shape of the single identifier tree of a re-export declaration.
#[derive(Clone, Debug)]
pub enum UseTreeShape {
    /// `use name;` — the one supported shape.
    Name { ident: String },
    /// `use a::b;`
    Path,
    /// `use a as b;`
    Rename,
    /// `use a::*;`
    Glob,
    /// `use a::{..};`
    Group,
}

/// The item a dispatch request is attached to: a signature-only declaration
/// asking for a forwarding wrapper, or an already-bodied one asking only for
/// the guard (the plain conditional mode).
#[derive(Clone, Debug)]
pub enum FnItem {
    Signature(CallableDecl),
    /// The whole item, verbatim.
    Bodied(String),
}

/// The item a module-alias request is attached to.
#[derive(Clone, Debug)]
pub enum ModInput {
    /// A re-export declaration.
    Reexport { attrs: Vec<String>, vis: String, leading_colon: bool, tree: UseTreeShape },
    /// A module declaration; `has_body` records an inline body.
    Module { attrs: Vec<String>, vis: String, is_unsafe: bool, has_body: bool, ident: String },
    /// Anything else.
    Unrecognized,
}

} // verus!
