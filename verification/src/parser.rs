//! The schema description that the compiler consumes.

pub mod ast;
