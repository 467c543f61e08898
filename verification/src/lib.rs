//! Compile-time accessor derivation, modelled and verified.
//!
//! Given a description of a field-braced record and the annotations on its
//! fields, the library decides, per field, which accessor and mutator shapes
//! to emit, and produces the generated code both as structured fragments and
//! as rendered source text.

pub mod ast;
pub mod attr;
pub mod derive;
pub mod errors;
pub mod laws;
pub mod render;
