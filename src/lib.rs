//! Decides, for each public method of an annotated impl block, whether a
//! C-callable wrapper can be generated, and plans that wrapper: its symbol
//! name, how many receiver arguments it supplies, and how each remaining
//! argument is marshalled.
pub mod ast;
pub mod diagnostic;
pub mod marshal;
pub mod receiver;
pub mod synth;
pub mod engine;
pub mod laws;
pub mod symbols;
