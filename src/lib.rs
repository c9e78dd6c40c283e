//! Core data types of a chunk-based binary container format: a four-byte
//! type identifier and a chunk that pairs one with a payload buffer.
pub mod chunk;
pub mod fourcc;
