//! Flat vertex buffers (indexed and non-indexed) exported from a half-edge triangle mesh.
use vstd::prelude::*;

pub mod export;
pub mod mesh;
