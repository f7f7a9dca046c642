//! The grammar's decisions: what the tokens ahead make the parser do.

pub mod expressions;
