//! Generation of builder and structured-formatting code for record types.
//!
//! A record type is described by its name and its named fields. From that
//! description the crate classifies every field as required or optional
//! (`schema`) and emits the source text of a companion builder (`builder`)
//! and of a `Debug` implementation (`debug`). Every generator is a function
//! of its argument alone, and its contract gives the emitted text exactly.
//!
//! The `runtime` module states, as executable code with proved contracts,
//! what the emitted builder does when it runs; `laws` proves what follows
//! for every schema and every sequence of setter calls.

pub mod artifact;
pub mod builder;
pub mod debug;
pub mod laws;
pub mod runtime;
pub mod schema;
pub mod text;
pub mod types;
