//! Scalars, vectors, colours and symbolic matrices.
//!
//! A [`Scalar`] is a single-precision number held by its bit pattern. The
//! core stores and forwards such values and never computes with them. A
//! matrix is held as the factor it was built from, and a product of matrices
//! as the list of its factors, written left to right.

use vstd::prelude::*;

verus! {

/// A single-precision floating-point number, held by its IEEE-754 bit
/// pattern.
#[derive(Clone, Copy, Debug, PartialEq, Eq, Structural)]
pub struct Scalar {
    pub bits: u32,
}

impl Scalar {
    /// The scalar with the given bit pattern.
    pub fn from_bits(bits: u32) -> (s: Scalar)
        ensures
            s.bits == bits,
    {
        Scalar { bits }
    }

    /// The bit pattern of this scalar.
    pub fn to_bits(self) -> (bits: u32)
        ensures
            bits == self.bits,
    {
        self.bits
    }
}

/// A point or an extent in logical pixel units.
#[derive(Clone, Copy, Debug, PartialEq, Eq, Structural)]
pub struct Vec3 {
    pub x: Scalar,
    pub y: Scalar,
    pub z: Scalar,
}

impl Vec3 {
    /// The vector with the given components.
    pub fn new(x: Scalar, y: Scalar, z: Scalar) -> (v: Vec3)
        ensures
            v == (Vec3 { x, y, z }),
    {
        Vec3 { x, y, z }
    }
}

/// A corner of a rectangle, as seen before the rectangle is turned.
#[derive(Clone, Copy, Debug, PartialEq, Eq, Structural)]
pub enum Corner {
    TopLeft,
    TopRight,
    BottomRight,
    BottomLeft,
}

impl Corner {
    /// The corner that follows this one on the way round the rectangle from
    /// the top left over the top right.
    pub open spec fn next_spec(self) -> Corner {
        match self {
            Corner::TopLeft => Corner::TopRight,
            Corner::TopRight => Corner::BottomRight,
            Corner::BottomRight => Corner::BottomLeft,
            Corner::BottomLeft => Corner::TopLeft,
        }
    }

    /// The corner that follows this one on the way round the rectangle.
    #[verifier::when_used_as_spec(next_spec)]
    pub fn next(self) -> (c: Corner)
        ensures
            c == self.next_spec(),
    {
        match self {
            Corner::TopLeft => Corner::TopRight,
            Corner::TopRight => Corner::BottomRight,
            Corner::BottomRight => Corner::BottomLeft,
            Corner::BottomLeft => Corner::TopLeft,
        }
    }

    /// Whether the corner is on the right side: its `x` is the centre's
    /// plus half the width, not minus.
    pub fn is_right(self) -> (b: bool)
        ensures
            b == (self == Corner::TopRight || self == Corner::BottomRight),
    {
        match self {
            Corner::TopRight => true,
            Corner::BottomRight => true,
            _ => false,
        }
    }

    /// Whether the corner is on the top side: its `y` is the centre's plus
    /// half the height, not minus.
    pub fn is_top(self) -> (b: bool)
        ensures
            b == (self == Corner::TopLeft || self == Corner::TopRight),
    {
        match self {
            Corner::TopLeft => true,
            Corner::TopRight => true,
            _ => false,
        }
    }
}

/// An unpremultiplied RGBA colour.
#[derive(Clone, Copy, Debug, PartialEq, Eq, Structural)]
pub struct Color {
    pub r: Scalar,
    pub g: Scalar,
    pub b: Scalar,
    pub a: Scalar,
}

impl Color {
    /// The colour with the given channels.
    pub fn new(r: Scalar, g: Scalar, b: Scalar, a: Scalar) -> (c: Color)
        ensures
            c == (Color { r, g, b, a }),
    {
        Color { r, g, b, a }
    }
}

/// A left-handed orthographic projection of the box
/// `[left, right] x [bottom, top] x [near, far]` onto normalised device
/// coordinates. The bounds are whole numbers of logical pixels.
#[derive(Clone, Copy, Debug, PartialEq, Eq, Structural)]
pub struct Projection {
    pub left: i32,
    pub right: i32,
    pub bottom: i32,
    pub top: i32,
    pub near: i32,
    pub far: i32,
}

/// Width of the logical viewport, in pixels.
pub const VIEWPORT_WIDTH: i32 = 800;

/// Height of the logical viewport, in pixels.
pub const VIEWPORT_HEIGHT: i32 = 600;

/// Depth of the near plane of the viewport.
pub const VIEWPORT_NEAR: i32 = -1;

/// Depth of the far plane of the viewport.
pub const VIEWPORT_FAR: i32 = 1;

impl Projection {
    /// The projection of a viewport whose origin is its bottom-left corner.
    pub open spec fn viewport_spec(width: i32, height: i32) -> Projection {
        Projection {
            left: 0,
            right: width,
            bottom: 0,
            top: height,
            near: VIEWPORT_NEAR,
            far: VIEWPORT_FAR,
        }
    }

    /// The projection of a viewport whose origin is its bottom-left corner
    /// and whose depth range is `[-1, 1]`.
    pub fn viewport(width: i32, height: i32) -> (p: Projection)
        ensures
            p == Self::viewport_spec(width, height),
    {
        Projection {
            left: 0,
            right: width,
            bottom: 0,
            top: height,
            near: VIEWPORT_NEAR,
            far: VIEWPORT_FAR,
        }
    }

    /// The projection that every primitive of a frame is drawn with.
    pub open spec fn engine_default_spec() -> Projection {
        Self::viewport_spec(VIEWPORT_WIDTH, VIEWPORT_HEIGHT)
    }

    /// The projection that every primitive of a frame is drawn with.
    pub fn engine_default() -> (p: Projection)
        ensures
            p == Self::engine_default_spec(),
    {
        Self::viewport(VIEWPORT_WIDTH, VIEWPORT_HEIGHT)
    }
}

/// One 4x4 matrix, named by how it is built.
#[derive(Clone, Copy, Debug, PartialEq, Eq, Structural)]
pub enum MatrixFactor {
    /// The identity matrix.
    Identity,
    /// An orthographic projection.
    Projection(Projection),
    /// A translation by the given vector.
    Translation(Vec3),
    /// A counter-clockwise rotation about the Z axis by the given angle in
    /// radians.
    RotationZ(Scalar),
    /// A non-uniform scale by the given factors.
    Scale(Vec3),
    /// The translation to a corner of a rectangle: the point half of `size`
    /// away from `center` in `x` and in `y`, to the side that `corner`
    /// names, at the depth of `center`, turned about `center` by `angle`
    /// radians counter-clockwise.
    CornerTranslation { center: Vec3, size: Vec3, angle: Scalar, corner: Corner },
}

/// The product `first * second * third * fourth` of four matrices.
///
/// Applied to a point, `fourth` acts first and `first` acts last.
#[derive(Clone, Copy, Debug, PartialEq, Eq, Structural)]
pub struct MatrixProduct {
    pub first: MatrixFactor,
    pub second: MatrixFactor,
    pub third: MatrixFactor,
    pub fourth: MatrixFactor,
}

impl MatrixProduct {
    /// The factors of the product, left to right.
    pub open spec fn factors_spec(self) -> Seq<MatrixFactor> {
        seq![self.first, self.second, self.third, self.fourth]
    }

    /// The factors of the product, left to right.
    pub fn factors(&self) -> (f: Vec<MatrixFactor>)
        ensures
            f@ == self.factors_spec(),
    {
        let mut f: Vec<MatrixFactor> = Vec::new();
        f.push(self.first);
        f.push(self.second);
        f.push(self.third);
        f.push(self.fourth);
        f
    }
}

/// The placement of a primitive: where it is, how large, and how it is
/// turned.
#[derive(Clone, Copy, Debug, PartialEq, Eq, Structural)]
pub struct TransformComponent {
    pub position: MatrixFactor,
    pub scale: MatrixFactor,
    pub rotation: MatrixFactor,
}

impl TransformComponent {
    /// The matrix that takes the primitive's mesh to clip space:
    /// `projection * translation * rotation * scale`, so that the scale
    /// applies in the mesh's own space, before rotation and translation.
    pub open spec fn model_spec(self, projection: Projection) -> MatrixProduct {
        MatrixProduct {
            first: MatrixFactor::Projection(projection),
            second: self.position,
            third: self.rotation,
            fourth: self.scale,
        }
    }

    /// The matrix that takes the primitive's mesh to clip space.
    pub fn model(&self, projection: Projection) -> (m: MatrixProduct)
        ensures
            m == self.model_spec(projection),
            m.factors_spec() == seq![
                MatrixFactor::Projection(projection),
                self.position,
                self.rotation,
                self.scale,
            ],
    {
        MatrixProduct {
            first: MatrixFactor::Projection(projection),
            second: self.position,
            third: self.rotation,
            fourth: self.scale,
        }
    }
}

/// The two ends of a line, each as the translation that takes the origin
/// there.
#[derive(Clone, Copy, Debug, PartialEq, Eq, Structural)]
pub struct LineComponent {
    pub orig: MatrixFactor,
    pub dest: MatrixFactor,
}

/// The matrix that takes the origin to the end of a line given by `end`:
/// `projection * end`.
pub open spec fn endpoint_model_spec(projection: Projection, end: MatrixFactor) -> MatrixProduct {
    MatrixProduct {
        first: MatrixFactor::Projection(projection),
        second: end,
        third: MatrixFactor::Identity,
        fourth: MatrixFactor::Identity,
    }
}

/// The matrix that takes the origin to the end of a line given by `end`.
pub fn endpoint_model(projection: Projection, end: MatrixFactor) -> (m: MatrixProduct)
    ensures
        m == endpoint_model_spec(projection, end),
{
    MatrixProduct {
        first: MatrixFactor::Projection(projection),
        second: end,
        third: MatrixFactor::Identity,
        fourth: MatrixFactor::Identity,
    }
}

} // verus!
