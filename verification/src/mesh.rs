//! The static meshes of the three pipelines and the layout of their
//! vertices.

use vstd::prelude::*;
use crate::geometry::Scalar;
use crate::geometry::Vec3;
use crate::pipeline::VertexAttribute;
use crate::pipeline::VertexBufferLayout;
use crate::pipeline::VertexBufferLayoutModel;
use crate::pipeline::VertexDescriptor;
use crate::pipeline::VertexFormat;

verus! {

/// The bit pattern of the scalar `0.0`.
pub const ZERO_BITS: u32 = 0x0000_0000;

/// The bit pattern of the scalar `0.5`.
pub const HALF_BITS: u32 = 0x3F00_0000;

/// The bit pattern of the scalar `-0.5`.
pub const MINUS_HALF_BITS: u32 = 0xBF00_0000;

/// The bit pattern of the scalar `1.0`.
pub const ONE_BITS: u32 = 0x3F80_0000;

/// The size in bytes of a scalar in a buffer.
pub const SCALAR_SIZE: u64 = 4;

/// A texture coordinate.
#[derive(Clone, Copy, Debug, PartialEq, Eq, Structural)]
pub struct Vec2 {
    pub x: Scalar,
    pub y: Scalar,
}

/// The point of the plane `z = 0` with the given coordinates.
pub open spec fn flat_point(x: u32, y: u32) -> Vec3 {
    Vec3 { x: Scalar { bits: x }, y: Scalar { bits: y }, z: Scalar { bits: ZERO_BITS } }
}

/// A vertex of the quad mesh: a position and a texture coordinate.
#[derive(Clone, Copy, Debug, PartialEq, Eq, Structural)]
pub struct QuadVertex {
    pub position: Vec3,
    pub tex_coords: Vec2,
}

/// The quad vertex at `(x, y, 0)` with texture coordinate `(u, v)`.
pub open spec fn quad_vertex_spec(x: u32, y: u32, u: u32, v: u32) -> QuadVertex {
    QuadVertex {
        position: flat_point(x, y),
        tex_coords: Vec2 { x: Scalar { bits: u }, y: Scalar { bits: v } },
    }
}

/// A vertex that is a position and nothing else.
#[derive(Clone, Copy, Debug, PartialEq, Eq, Structural)]
pub struct PositionVertex {
    pub position: Vec3,
}

/// A vertex of the line mesh.
pub type LineVertex = PositionVertex;

/// A vertex of the circle mesh.
pub type CircleVertex = PositionVertex;

impl VertexDescriptor for QuadVertex {
    open spec fn desc_spec() -> VertexBufferLayoutModel {
        VertexBufferLayoutModel {
            array_stride: 20,
            attributes: seq![
                VertexAttribute { offset: 0, shader_location: 0, format: VertexFormat::Float32x3 },
                VertexAttribute { offset: 12, shader_location: 1, format: VertexFormat::Float32x2 },
            ],
        }
    }

    fn desc() -> (layout: VertexBufferLayout) {
        let mut attributes: Vec<VertexAttribute> = Vec::new();
        attributes.push(
            VertexAttribute { offset: 0, shader_location: 0, format: VertexFormat::Float32x3 },
        );
        attributes.push(
            VertexAttribute {
                offset: 3 * SCALAR_SIZE,
                shader_location: 1,
                format: VertexFormat::Float32x2,
            },
        );
        let layout = VertexBufferLayout { array_stride: 5 * SCALAR_SIZE, attributes };
        assert(layout@.attributes =~= Self::desc_spec().attributes);
        layout
    }
}

impl VertexDescriptor for PositionVertex {
    open spec fn desc_spec() -> VertexBufferLayoutModel {
        VertexBufferLayoutModel {
            array_stride: 12,
            attributes: seq![
                VertexAttribute { offset: 0, shader_location: 0, format: VertexFormat::Float32x3 },
            ],
        }
    }

    fn desc() -> (layout: VertexBufferLayout) {
        let mut attributes: Vec<VertexAttribute> = Vec::new();
        attributes.push(
            VertexAttribute { offset: 0, shader_location: 0, format: VertexFormat::Float32x3 },
        );
        let layout = VertexBufferLayout { array_stride: 3 * SCALAR_SIZE, attributes };
        assert(layout@.attributes =~= Self::desc_spec().attributes);
        layout
    }
}

/// The quad mesh: the unit square about the origin as two triangles, wound
/// counter-clockwise from the top right corner, with the texture's origin at
/// the top left.
pub open spec fn quad_mesh_spec() -> Seq<QuadVertex> {
    seq![
        quad_vertex_spec(HALF_BITS, HALF_BITS, ONE_BITS, ZERO_BITS),
        quad_vertex_spec(MINUS_HALF_BITS, HALF_BITS, ZERO_BITS, ZERO_BITS),
        quad_vertex_spec(MINUS_HALF_BITS, MINUS_HALF_BITS, ZERO_BITS, ONE_BITS),
        quad_vertex_spec(MINUS_HALF_BITS, MINUS_HALF_BITS, ZERO_BITS, ONE_BITS),
        quad_vertex_spec(HALF_BITS, MINUS_HALF_BITS, ONE_BITS, ONE_BITS),
        quad_vertex_spec(HALF_BITS, HALF_BITS, ONE_BITS, ZERO_BITS),
    ]
}

/// The line mesh: two vertices at the origin. The vertex stage moves the
/// first to the origin of the line and the second to its destination.
pub open spec fn line_mesh_spec() -> Seq<PositionVertex> {
    seq![
        PositionVertex { position: flat_point(ZERO_BITS, ZERO_BITS) },
        PositionVertex { position: flat_point(ZERO_BITS, ZERO_BITS) },
    ]
}

/// The circle mesh: the four corners of the unit square about the origin,
/// counter-clockwise from the top right.
pub open spec fn circle_mesh_spec() -> Seq<PositionVertex> {
    seq![
        PositionVertex { position: flat_point(HALF_BITS, HALF_BITS) },
        PositionVertex { position: flat_point(MINUS_HALF_BITS, HALF_BITS) },
        PositionVertex { position: flat_point(MINUS_HALF_BITS, MINUS_HALF_BITS) },
        PositionVertex { position: flat_point(HALF_BITS, MINUS_HALF_BITS) },
    ]
}

/// The indices of the two triangles of the circle mesh.
pub open spec fn circle_indices_spec() -> Seq<u16> {
    seq![0u16, 1u16, 2u16, 2u16, 3u16, 0u16]
}

fn quad_vertex(x: u32, y: u32, u: u32, v: u32) -> (vertex: QuadVertex)
    ensures
        vertex == quad_vertex_spec(x, y, u, v),
{
    QuadVertex {
        position: Vec3 {
            x: Scalar { bits: x },
            y: Scalar { bits: y },
            z: Scalar { bits: ZERO_BITS },
        },
        tex_coords: Vec2 { x: Scalar { bits: u }, y: Scalar { bits: v } },
    }
}

fn position_vertex(x: u32, y: u32) -> (vertex: PositionVertex)
    ensures
        vertex == (PositionVertex { position: flat_point(x, y) }),
{
    PositionVertex {
        position: Vec3 {
            x: Scalar { bits: x },
            y: Scalar { bits: y },
            z: Scalar { bits: ZERO_BITS },
        },
    }
}

/// The vertices of the quad mesh.
pub fn quad_vertices() -> (mesh: Vec<QuadVertex>)
    ensures
        mesh@ == quad_mesh_spec(),
{
    let mut mesh: Vec<QuadVertex> = Vec::new();
    mesh.push(quad_vertex(HALF_BITS, HALF_BITS, ONE_BITS, ZERO_BITS));
    mesh.push(quad_vertex(MINUS_HALF_BITS, HALF_BITS, ZERO_BITS, ZERO_BITS));
    mesh.push(quad_vertex(MINUS_HALF_BITS, MINUS_HALF_BITS, ZERO_BITS, ONE_BITS));
    mesh.push(quad_vertex(MINUS_HALF_BITS, MINUS_HALF_BITS, ZERO_BITS, ONE_BITS));
    mesh.push(quad_vertex(HALF_BITS, MINUS_HALF_BITS, ONE_BITS, ONE_BITS));
    mesh.push(quad_vertex(HALF_BITS, HALF_BITS, ONE_BITS, ZERO_BITS));
    assert(mesh@ =~= quad_mesh_spec());
    mesh
}

/// The vertices of the line mesh.
pub fn line_vertices() -> (mesh: Vec<PositionVertex>)
    ensures
        mesh@ == line_mesh_spec(),
{
    let mut mesh: Vec<PositionVertex> = Vec::new();
    mesh.push(position_vertex(ZERO_BITS, ZERO_BITS));
    mesh.push(position_vertex(ZERO_BITS, ZERO_BITS));
    assert(mesh@ =~= line_mesh_spec());
    mesh
}

/// The vertices of the circle mesh.
pub fn circle_vertices() -> (mesh: Vec<PositionVertex>)
    ensures
        mesh@ == circle_mesh_spec(),
{
    let mut mesh: Vec<PositionVertex> = Vec::new();
    mesh.push(position_vertex(HALF_BITS, HALF_BITS));
    mesh.push(position_vertex(MINUS_HALF_BITS, HALF_BITS));
    mesh.push(position_vertex(MINUS_HALF_BITS, MINUS_HALF_BITS));
    mesh.push(position_vertex(HALF_BITS, MINUS_HALF_BITS));
    assert(mesh@ =~= circle_mesh_spec());
    mesh
}

/// The indices of the circle mesh.
pub fn circle_indices() -> (indices: Vec<u16>)
    ensures
        indices@ == circle_indices_spec(),
{
    let mut indices: Vec<u16> = Vec::new();
    indices.push(0u16);
    indices.push(1u16);
    indices.push(2u16);
    indices.push(2u16);
    indices.push(3u16);
    indices.push(0u16);
    assert(indices@ =~= circle_indices_spec());
    indices
}

} // verus!
