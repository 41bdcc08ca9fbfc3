//! What a caller hands to the rasterizer: a mesh and how to draw it.

use vstd::prelude::*;
use super::math::{Mat4x4, Vec3, Vec4};

verus! {

/// Which triangles to discard, by their winding on screen.
#[derive(Debug, Copy, Clone)]
pub enum CullMode {
    /// Discard nothing.
    Off,
    /// Discard triangles whose winding is counterclockwise.
    Counterclockwise,
    /// Discard triangles whose winding is clockwise.
    Clockwise,
}

/// Triangles of one flat color: each three consecutive positions are one
/// triangle, and one or two positions left over at the end are ignored.
#[derive(Debug)]
pub struct Mesh<'a> {
    pub positions: &'a [Vec3],
    pub color: Vec4,
}

/// A mesh, the windings to discard, and the transform that takes each
/// position to the pixel space of the buffer.
#[derive(Debug)]
pub struct DrawCommand<'a> {
    pub mesh: Mesh<'a>,
    pub cull_mode: CullMode,
    pub transform: Mat4x4,
}

impl<'a> DrawCommand<'a> {
    /// Number of whole triangles in the mesh.
    pub open spec fn triangles(&self) -> int {
        self.mesh.positions@.len() as int / 3
    }

    /// Position `i` of the mesh after the transform.
    pub open spec fn vertex(&self, i: int) -> Vec4 {
        self.transform.spec_mul(self.mesh.positions@[i].spec_as_point())
    }
}

} // verus!
