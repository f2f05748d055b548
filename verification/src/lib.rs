//! Generation of conversion-function fragments for single-field data shapes.
//!
//! Given the structural description of a data type — a record with named
//! fields, a positional type, or a tagged union of variants — this library
//! decides which shapes may receive a conversion from their single inner
//! type, and emits one construction fragment per accepted shape.  An outer
//! layer parses source text into descriptors and splices the emitted
//! fragments back into the program; neither of those steps happens here.

pub mod descriptor;
pub mod emitter;
pub mod error;
pub mod fragment;
pub mod generate;
pub mod laws;
pub mod selector;

pub use crate::generate::simple_from;
