//! In-place, chunked, data-parallel substitution of `;` by `:` over a byte
//! buffer, with the small amount of argument logic its command-line front end
//! needs.

pub mod args;
pub mod chunker;
pub mod substitution;

pub use args::IoArgs;
pub use chunker::{Chunker, ChunkerError, CHUNK_SIZE};
pub use substitution::substitute_in_place;
