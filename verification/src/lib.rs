//! Method resolution for a trait-based language, together with the typed
//! syntax-tree accessors that the analysis reads.

pub mod hir;
pub mod syntax;
pub mod grammar;
