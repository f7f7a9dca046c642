//! The semantic side: identities, types, program facts and method lookup.

pub mod ids;
pub mod ty;
pub mod program;
pub(crate) mod fx;
pub mod method_resolution;
pub mod db;
pub mod solver;
pub mod table_solver;
pub mod events;
pub mod laws;
