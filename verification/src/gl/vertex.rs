//! The vertex layout fed to the quad pipeline.

use vstd::prelude::*;
use crate::math::point::Pt2;

verus! {

/// A vertex: a position and a texture coordinate.
#[derive(Clone, Copy, PartialEq, Eq, Structural, Debug)]
pub struct Vertex {
    pub pos: Pt2,
    pub uv: Pt2,
}

impl Vertex {
    /// The vertex with the given position and texture coordinate.
    pub fn new(pos: Pt2, uv: Pt2) -> (r: Self)
        ensures
            r.pos == pos && r.uv == uv,
    {
        Self { pos, uv }
    }
}

} // verus!
