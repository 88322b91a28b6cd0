//! Codec and structural-compatibility engine for a compact binary
//! type-description format.
//!
//! A stream of fixed-and-variable-length binary records describes the data
//! types of a compiled program.  This crate decodes such records into a
//! tagged in-memory representation ([`types::BtfType`]), re-encodes them
//! byte-exactly, and decides whether two independently produced type graphs
//! describe the same type or field for the purpose of relocating a field
//! access from one layout to another ([`compat`]).

pub mod btf;
pub mod codec;
pub mod compat;
pub mod errors;
pub mod programs;
pub mod types;
