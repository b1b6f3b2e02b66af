//! Device-side twin agent: the decisions of the coordination loop, the queue of
//! reported-property patches and the update-metadata documents, with their contracts.

pub mod adu;
pub mod fields;
pub mod json;
pub mod laws;
pub mod twin;
