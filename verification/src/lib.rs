//! Replace the bodies of selected WebAssembly functions with a single
//! `unreachable` instruction.
//!
//! The library works on a plain-value model of a module: an arena of
//! functions addressed by index. Selecting the functions to snip and
//! rewriting their bodies are separate steps, each with a contract over the
//! mathematical view of the module.

pub mod error;
pub mod laws;
pub mod module;
pub mod options;
pub mod pattern;
pub mod rewrite;
pub mod select;
pub mod targets;

pub use error::SnipError;
pub use module::{
    Body, Function, FunctionKind, HeapType, Module, RefType, Signature, ValType,
};
pub use options::Options;
pub use pattern::NameMatcher;
pub use rewrite::{first_invalid, snip, snip_with_options};
pub use select::{is_listed, pattern_hits, select, select_with_hits, wanted};
pub use targets::TargetSet;
