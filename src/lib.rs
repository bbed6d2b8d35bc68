//! Extends a type with methods by synthesizing the trait that declares them.
//!
//! An `impl Name for Type { ... }` block whose trait does not exist yet is
//! rewritten into two declarations: a trait `Name` holding the methods'
//! signatures, and the input impl retargeted at that trait for `Type`.
pub mod ast;
pub mod data;
pub mod expand;
pub mod laws;

pub use ast::{ImplItem, ImplItemKind, Item, ItemKind, Path, PathSegment, Span, TraitItem, Visibility};
pub use data::{Diagnostic, DiagnosticKind, Extender, ImplData, Method};
pub use expand::{expand, Expansion};
