//! A verified JSON code generator: renders an in-memory JSON value tree to
//! text, either pretty-printed (4-space indentation, one object entry per
//! line) or minified (no whitespace outside string content).

pub mod codegen;
pub mod laws;
pub mod value;
