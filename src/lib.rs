//! A four-byte chunk type tag of the PNG container format: its bytes, the
//! property flags that bit 5 of each byte carries, and membership in the set
//! of chunk types this library recognises.

pub mod chunk_type;

pub use chunk_type::{ChunkType, ChunkTypeError};
