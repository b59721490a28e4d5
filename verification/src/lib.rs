//! A small RV32I assembler library: bit-exact instruction-format codecs, a
//! closed instruction model with its encoder, and a line-oriented mnemonic
//! parser, each with proved contracts.
//!
//! Text goes in as bytes, one statement per line; each instruction comes
//! out as one 32-bit word, serialized little-endian. Decoding an encoded
//! record and encoding a decoded word are both proved to round-trip.

pub mod ast;
pub mod emit;
pub mod encoding;
pub mod parser;
