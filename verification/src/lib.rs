//! A declarative engine that turns platform inclusion/exclusion directives
//! attached to a declaration into platform-gated source artifacts: guard
//! predicates, forwarding dispatch wrappers, per-platform type aliases, and
//! visibility-split module aliases.

pub mod alias;
pub mod assertion;
pub mod decl;
pub mod diag;
pub mod engine;
pub mod parse;
pub mod platform;
pub mod resolve;
pub mod scan;
pub mod text;
pub mod transform;

pub use engine::{platform_mod, sys_function, sys_struct, sys_trait_function, GenOutput};
pub use platform::Platform;
