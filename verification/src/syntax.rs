//! The syntactic side: syntax trees and typed access to their nodes.

pub mod syntax_kind;
pub mod tree;
pub mod ast;
pub(crate) mod tuples;
pub mod extensions;
