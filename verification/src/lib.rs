//! Type-descriptor compiler: renders the structural shape of a data type as a
//! canonical textual alias, for consumption by an independently compiled
//! runtime that must agree on memory layout without seeing the declaration.

pub mod ast;
pub mod decl;
pub mod digits;
pub mod laws;
pub mod opaque;
pub mod render;
