//! Diagnostics: a message paired with the place in the annotated declaration
//! that it is anchored to. The host tool turns these into build-time errors.

use vstd::prelude::*;

verus! {

/// Where a diagnostic is anchored. The host maps each anchor back to a
/// source span of the declaration or option block it was given.
#[derive(Clone, Copy, Debug, PartialEq, Eq, Structural)]
pub enum Anchor {
    /// The option block as a whole.
    OptionBlock,
    /// The parameter at this position in the parameter list.
    Param { index: usize },
    /// The variadic marker of the parameter list.
    Variadic,
    /// The leading path separator of a re-export declaration.
    UseLeadingColon,
    /// The tree of a re-export declaration.
    UseTree,
    /// The unsafety marker of a module declaration.
    ModUnsafety,
    /// The module declaration as a whole.
    ModDecl,
    /// The whole annotated item.
    Item,
}

/// A build-time error report: a human-readable message and the place it is
/// anchored to.
#[derive(Clone, Debug)]
pub struct Diagnostic {
    pub message: String,
    pub anchor: Anchor,
}

impl Diagnostic {
    pub fn new(message: String, anchor: Anchor) -> (r: Diagnostic)
        ensures
            r.message == message,
            r.anchor == anchor,
    {
        Diagnostic { message, anchor }
    }
}

} // verus!
