//! The engine: clients submit primitives during a frame; the engine lays the
//! frame out as uploads and draw calls, and forgets the requests when the
//! frame ends.

use vstd::prelude::*;
use crate::circle::circle_draws;
use crate::circle::circle_uploads;
use crate::circle::CircleInfo;
use crate::circle::CirclePipeline;
use crate::circle::circle_capacity_spec;
use crate::geometry::Color;
use crate::geometry::Corner;
use crate::geometry::LineComponent;
use crate::geometry::MatrixFactor;
use crate::geometry::Projection;
use crate::geometry::Scalar;
use crate::geometry::TransformComponent;
use crate::geometry::Vec3;
use crate::jpeg::is_lossless_jpeg;
use crate::layout::SetupError;
use crate::layout::UniformSlot;
use crate::line::line_draws;
use crate::line::line_uploads;
use crate::line::LineInfo;
use crate::line::LinePipeline;
use crate::line::LINE_MAX_INSTANCES;
use crate::plan::capacity_fault;
use crate::plan::overflow_fault;
use crate::plan::DrawCall;
use crate::plan::FrameError;
use crate::plan::PrimitiveKind;
use crate::plan::UploadWrite;
use crate::quad::quad_draw_fault;
use crate::quad::quad_draws;
use crate::quad::quad_uploads;
use crate::quad::quads_drawable;
use crate::quad::QuadInfo;
use crate::quad::QuadModel;
use crate::quad::QuadPipeline;
use crate::quad::QUAD_MAX_INSTANCES;
use crate::registry::default_texture_model;
use crate::registry::TextureMap;
use crate::registry::DEFAULT_TEXTURE_ID;
use crate::texture::well_sized;
use crate::texture::sprite_spec;
use crate::texture::Texture;
use crate::texture::TextureError;

verus! {

/// The request that a call of [`Engine::render_quad`] appends.
pub open spec fn quad_request(
    position: Vec3,
    scale: Vec3,
    angle: Scalar,
    color: Color,
    texture_name: Option<Seq<char>>,
) -> QuadModel {
    QuadModel {
        transform: TransformComponent {
            position: MatrixFactor::Translation(position),
            scale: MatrixFactor::Scale(scale),
            rotation: MatrixFactor::RotationZ(angle),
        },
        color,
        texture_name,
    }
}

/// The request that a call of [`Engine::render_line`] appends.
pub open spec fn line_request(orig: Vec3, dest: Vec3, color: Color) -> LineInfo {
    LineInfo {
        transform: LineComponent {
            orig: MatrixFactor::Translation(orig),
            dest: MatrixFactor::Translation(dest),
        },
        color,
    }
}

/// The translation to a corner of the rectangle of the given size about
/// `position`, turned by `angle`.
pub open spec fn rect_corner(position: Vec3, size: Vec3, angle: Scalar, corner: Corner) -> MatrixFactor {
    MatrixFactor::CornerTranslation { center: position, size, angle, corner }
}

/// The side of a rectangle that starts at `corner` and ends at the next
/// corner.
pub open spec fn rect_side(
    position: Vec3,
    size: Vec3,
    angle: Scalar,
    color: Color,
    corner: Corner,
) -> LineInfo {
    LineInfo {
        transform: LineComponent {
            orig: rect_corner(position, size, angle, corner),
            dest: rect_corner(position, size, angle, corner.next_spec()),
        },
        color,
    }
}

/// The requests that a call of [`Engine::render_rect`] appends: the four
/// sides of the rectangle, from the top left corner over the top right,
/// each starting where the one before it ends, the last ending where the
/// first starts.
pub open spec fn rect_outline(position: Vec3, size: Vec3, angle: Scalar, color: Color) -> Seq<
    LineInfo,
> {
    seq![
        rect_side(position, size, angle, color, Corner::TopLeft),
        rect_side(position, size, angle, color, Corner::TopRight),
        rect_side(position, size, angle, color, Corner::BottomRight),
        rect_side(position, size, angle, color, Corner::BottomLeft),
    ]
}

/// The request that a call of [`Engine::render_circle`] appends.
pub open spec fn circle_request(
    position: Vec3,
    scale: Vec3,
    thickness: Scalar,
    fade: Scalar,
    color: Color,
) -> CircleInfo {
    CircleInfo {
        transform: TransformComponent {
            position: MatrixFactor::Translation(position),
            scale: MatrixFactor::Scale(scale),
            rotation: MatrixFactor::Identity,
        },
        color,
        thickness,
        fade,
    }
}

/// The first of the errors of the three kinds, quads first, that keeps the
/// uniform data of a frame from being uploaded.
pub open spec fn upload_fault(quads: nat, lines: nat, circles: nat, circle_capacity: nat) -> Option<
    FrameError,
> {
    match overflow_fault(PrimitiveKind::Quad, quads, QUAD_MAX_INSTANCES as nat) {
        Some(e) => Some(e),
        None => match overflow_fault(PrimitiveKind::Line, lines, LINE_MAX_INSTANCES as nat) {
            Some(e) => Some(e),
            None => capacity_fault(PrimitiveKind::Circle, circles, circle_capacity),
        },
    }
}

/// The draw calls of a frame: those of the quads, then those of the lines,
/// then those of the circles, whatever the order of submission between the
/// kinds.
pub open spec fn frame_draws(quads: Seq<DrawCall>, lines: Seq<DrawCall>, circles: Seq<DrawCall>) -> Seq<
    DrawCall,
> {
    quads + lines + circles
}

/// The outline of a rectangle is a closed loop of four lines of one colour:
/// each line starts at one corner and ends at the next, so that each of the
/// four corners is the start of exactly one line and the end of exactly one
/// other, and is met twice among the eight ends.
pub proof fn lemma_rect_outline_closed(position: Vec3, size: Vec3, angle: Scalar, color: Color)
    ensures
        ({
            let o = rect_outline(position, size, angle, color);
            let top_left = rect_corner(position, size, angle, Corner::TopLeft);
            let top_right = rect_corner(position, size, angle, Corner::TopRight);
            let bottom_right = rect_corner(position, size, angle, Corner::BottomRight);
            let bottom_left = rect_corner(position, size, angle, Corner::BottomLeft);
            &&& o.len() == 4
            &&& o[0].transform == (LineComponent { orig: top_left, dest: top_right })
            &&& o[1].transform == (LineComponent { orig: top_right, dest: bottom_right })
            &&& o[2].transform == (LineComponent { orig: bottom_right, dest: bottom_left })
            &&& o[3].transform == (LineComponent { orig: bottom_left, dest: top_left })
            &&& o[0].color == color
            &&& o[1].color == color
            &&& o[2].color == color
            &&& o[3].color == color
            &&& top_left != top_right
            &&& top_left != bottom_right
            &&& top_left != bottom_left
            &&& top_right != bottom_right
            &&& top_right != bottom_left
            &&& bottom_right != bottom_left
        }),
{
}

/// In the draw calls of a frame, a call of a kind that is painted earlier
/// comes before every call of a kind that is painted later: each quad
/// before each line, and each line before each circle, in whatever order
/// they were submitted.
pub proof fn lemma_paint_order(
    quads: Seq<QuadModel>,
    ids: Seq<Seq<char>>,
    quad_color: UniformSlot,
    quad_transform: UniformSlot,
    lines: nat,
    line_color: UniformSlot,
    line_orig: UniformSlot,
    line_dest: UniformSlot,
    circles: nat,
    circle_slot: UniformSlot,
)
    ensures
        ({
            let frame = frame_draws(
                quad_draws(quads, ids, quad_color, quad_transform),
                line_draws(lines, line_color, line_orig, line_dest),
                circle_draws(circles, circle_slot),
            );
            &&& frame.len() == quads.len() + lines + circles
            &&& forall|i: int|
                0 <= i < quads.len() ==> (#[trigger] frame[i]).kind_spec() == PrimitiveKind::Quad
            &&& forall|i: int|
                quads.len() <= i < quads.len() + lines ==> (#[trigger] frame[i]).kind_spec()
                    == PrimitiveKind::Line
            &&& forall|i: int|
                quads.len() + lines <= i < frame.len() ==> (#[trigger] frame[i]).kind_spec()
                    == PrimitiveKind::Circle
            &&& forall|i: int, j: int|
                0 <= i < frame.len() && 0 <= j < frame.len() && (
                #[trigger] frame[i]).kind_spec().paint_rank_spec() < (
                #[trigger] frame[j]).kind_spec().paint_rank_spec() ==> i < j
        }),
{
    let q = quad_draws(quads, ids, quad_color, quad_transform);
    let l = line_draws(lines, line_color, line_orig, line_dest);
    let c = circle_draws(circles, circle_slot);
    let frame = frame_draws(q, l, c);
    assert forall|i: int| 0 <= i < quads.len() implies (#[trigger] frame[i]).kind_spec()
        == PrimitiveKind::Quad by {
        assert(frame[i] == q[i]);
    }
    assert forall|i: int| quads.len() <= i < quads.len() + lines implies (
    #[trigger] frame[i]).kind_spec() == PrimitiveKind::Line by {
        assert(frame[i] == l[i - quads.len()]);
    }
    assert forall|i: int| quads.len() + lines <= i < frame.len() implies (
    #[trigger] frame[i]).kind_spec() == PrimitiveKind::Circle by {
        assert(frame[i] == c[i - quads.len() - lines]);
    }
}

/// The per-frame core of the renderer.
pub struct Engine {
    texture_map: TextureMap,
    quad_pipeline: QuadPipeline,
    line_pipeline: LinePipeline,
    circle_pipeline: CirclePipeline,
    projection: Projection,
}

impl Engine {
    /// The texture map.
    pub closed spec fn spec_texture_map(&self) -> TextureMap {
        self.texture_map
    }

    /// The quads of the frame and their layout.
    pub closed spec fn spec_quad_pipeline(&self) -> QuadPipeline {
        self.quad_pipeline
    }

    /// The lines of the frame and their layout.
    pub closed spec fn spec_line_pipeline(&self) -> LinePipeline {
        self.line_pipeline
    }

    /// The circles of the frame and their layout.
    pub closed spec fn spec_circle_pipeline(&self) -> CirclePipeline {
        self.circle_pipeline
    }

    /// The projection of every frame.
    pub closed spec fn spec_projection(&self) -> Projection {
        self.projection
    }

    /// Every part is well formed, and the projection is the fixed one.
    pub open spec fn well_formed(&self) -> bool {
        &&& self.spec_texture_map().well_formed()
        &&& self.spec_quad_pipeline().well_formed()
        &&& self.spec_line_pipeline().well_formed()
        &&& self.spec_circle_pipeline().well_formed()
        &&& self.spec_projection() == Projection::engine_default_spec()
    }

    /// Whether `other` differs from `self` in its pending requests at most.
    pub open spec fn same_resources(&self, other: &Engine) -> bool {
        &&& self.spec_texture_map() == other.spec_texture_map()
        &&& self.spec_projection() == other.spec_projection()
        &&& self.spec_quad_pipeline().spec_alignment()
            == other.spec_quad_pipeline().spec_alignment()
        &&& self.spec_quad_pipeline().spec_color_slot()
            == other.spec_quad_pipeline().spec_color_slot()
        &&& self.spec_quad_pipeline().spec_transform_slot()
            == other.spec_quad_pipeline().spec_transform_slot()
        &&& self.spec_line_pipeline().spec_alignment()
            == other.spec_line_pipeline().spec_alignment()
        &&& self.spec_line_pipeline().spec_color_slot()
            == other.spec_line_pipeline().spec_color_slot()
        &&& self.spec_line_pipeline().spec_orig_slot()
            == other.spec_line_pipeline().spec_orig_slot()
        &&& self.spec_line_pipeline().spec_dest_slot()
            == other.spec_line_pipeline().spec_dest_slot()
        &&& self.spec_circle_pipeline().spec_alignment()
            == other.spec_circle_pipeline().spec_alignment()
        &&& self.spec_circle_pipeline().spec_circle_slot()
            == other.spec_circle_pipeline().spec_circle_slot()
    }

    /// Whether `other` differs from `self` in its texture map at most.
    pub open spec fn same_frame(&self, other: &Engine) -> bool {
        &&& self.spec_quad_pipeline() == other.spec_quad_pipeline()
        &&& self.spec_line_pipeline() == other.spec_line_pipeline()
        &&& self.spec_circle_pipeline() == other.spec_circle_pipeline()
        &&& self.spec_projection() == other.spec_projection()
    }

    /// Why the engine cannot be set up for the given alignment, if it
    /// cannot.
    pub open spec fn setup_fault(min_alignment: u32) -> Option<SetupError> {
        match QuadPipeline::setup_fault(min_alignment) {
            Some(e) => Some(e),
            None => match LinePipeline::setup_fault(min_alignment) {
                Some(e) => Some(e),
                None => CirclePipeline::setup_fault(min_alignment),
            },
        }
    }

    /// Sets the engine up for a device whose dynamic offsets must be
    /// multiples of `min_alignment`: the three pipelines are laid out, no
    /// request is pending, and the texture map holds the fallback texture.
    pub fn new(min_alignment: u32) -> (r: Result<Engine, SetupError>)
        ensures
            match Self::setup_fault(min_alignment) {
                Some(e) => r is Err && r->Err_0 == e,
                None => {
                    &&& r is Ok
                    &&& r->Ok_0.well_formed()
                    &&& r->Ok_0.spec_quad_pipeline().spec_alignment() == min_alignment
                    &&& r->Ok_0.spec_line_pipeline().spec_alignment() == min_alignment
                    &&& r->Ok_0.spec_circle_pipeline().spec_alignment() == min_alignment
                    &&& r->Ok_0.spec_quad_pipeline().quads() == Seq::<QuadModel>::empty()
                    &&& r->Ok_0.spec_line_pipeline().lines() == Seq::<LineInfo>::empty()
                    &&& r->Ok_0.spec_circle_pipeline().circles() == Seq::<CircleInfo>::empty()
                    &&& r->Ok_0.spec_texture_map().ids() == seq![DEFAULT_TEXTURE_ID@]
                    &&& r->Ok_0.spec_texture_map().textures() == seq![default_texture_model()]
                },
            },
    {
        let quad_pipeline = match QuadPipeline::new(min_alignment) {
            Ok(p) => p,
            Err(e) => {
                return Err(e);
            },
        };
        let line_pipeline = match LinePipeline::new(min_alignment) {
            Ok(p) => p,
            Err(e) => {
                return Err(e);
            },
        };
        let circle_pipeline = match CirclePipeline::new(min_alignment) {
            Ok(p) => p,
            Err(e) => {
                return Err(e);
            },
        };
        Ok(
            Engine {
                texture_map: TextureMap::new(),
                quad_pipeline,
                line_pipeline,
                circle_pipeline,
                projection: Projection::engine_default(),
            },
        )
    }

    /// The texture map.
    pub fn texture_map(&self) -> (m: &TextureMap)
        ensures
            *m == self.spec_texture_map(),
    {
        &self.texture_map
    }

    /// The quads of the frame and their layout.
    pub fn quad_pipeline(&self) -> (p: &QuadPipeline)
        ensures
            *p == self.spec_quad_pipeline(),
    {
        &self.quad_pipeline
    }

    /// The lines of the frame and their layout.
    pub fn line_pipeline(&self) -> (p: &LinePipeline)
        ensures
            *p == self.spec_line_pipeline(),
    {
        &self.line_pipeline
    }

    /// The circles of the frame and their layout.
    pub fn circle_pipeline(&self) -> (p: &CirclePipeline)
        ensures
            *p == self.spec_circle_pipeline(),
    {
        &self.circle_pipeline
    }

    /// The projection of every frame.
    #[verifier::when_used_as_spec(spec_projection)]
    pub fn projection(&self) -> (p: Projection)
        ensures
            p == self.spec_projection(),
    {
        self.projection
    }

    /// Registers a texture of one texel under `id`, for quads of a flat
    /// colour. `data` holds the four bytes of the texel.
    ///
    /// Where `id` is registered already, nothing changes. Returns whether a
    /// texture was created and has yet to be uploaded.
    pub fn create_dummy_texture(&mut self, id: String, data: &[u8]) -> (r: Result<
        bool,
        TextureError,
    >)
        requires
            old(self).well_formed(),
        ensures
            final(self).well_formed(),
            old(self).same_frame(final(self)),
            old(self).spec_texture_map().registers(
                &final(self).spec_texture_map(),
                id@,
                sprite_spec(1, 1, data@, None, None, None),
                r,
            ),
    {
        self.texture_map.register_solid(id, data)
    }

    /// Registers a texture of 16 by 16 texels under `id`. `data` holds the
    /// texels as RGBA bytes, row by row.
    ///
    /// Where `id` is registered already, nothing changes. Returns whether a
    /// texture was created and has yet to be uploaded.
    pub fn create_dummy_texture_u32(&mut self, id: String, data: &[u8]) -> (r: Result<
        bool,
        TextureError,
    >)
        requires
            old(self).well_formed(),
        ensures
            final(self).well_formed(),
            old(self).same_frame(final(self)),
            old(self).spec_texture_map().registers(
                &final(self).spec_texture_map(),
                id@,
                sprite_spec(16, 16, data@, None, None, None),
                r,
            ),
    {
        self.texture_map.register_raw(id, 16, 16, data)
    }

    /// Registers the image encoded in `bytes` under `id`.
    ///
    /// Where `id` is registered already, nothing changes and the bytes are
    /// not decoded. Else a JPEG stream with a lossless frame is a
    /// `DecodeError`, and whatever the decoder makes of other bytes is
    /// registered: a `DecodeError` where it reports an error. Returns whether a
    /// texture was created and has yet to be uploaded.
    pub fn create_texture(&mut self, id: String, bytes: &[u8]) -> (r: Result<bool, TextureError>)
        requires
            old(self).well_formed(),
        ensures
            final(self).well_formed(),
            old(self).same_frame(final(self)),
            exists|decoded: Option<(u32, u32, Seq<u8>)>|
                #[trigger] well_sized(decoded) && old(self).spec_texture_map().registers(
                    &final(self).spec_texture_map(),
                    id@,
                    Texture::from_decoded_spec(decoded, Some(id@)),
                    r,
                ),
            old(self).spec_texture_map().ids().contains(id@) ==> r == Ok::<bool, TextureError>(
                false,
            ),
            r is Err ==> r->Err_0 == TextureError::DecodeError || r->Err_0
                == TextureError::TooWide,
            !old(self).spec_texture_map().ids().contains(id@) && is_lossless_jpeg(bytes@) ==> r
                == Err::<bool, TextureError>(TextureError::DecodeError),
    {
        self.texture_map.register(id, bytes)
    }

    /// Submits a quad: the unit quad scaled by `scale`, turned by `angle`
    /// radians counter-clockwise, and moved to `position`, tinted with
    /// `color`, with the named texture, or the fallback texture where no
    /// name is given. Nothing is uploaded or drawn.
    pub fn render_quad(
        &mut self,
        position: Vec3,
        scale: Vec3,
        angle: Scalar,
        color: Color,
        texture_name: Option<String>,
    )
        requires
            old(self).well_formed(),
        ensures
            final(self).well_formed(),
            old(self).same_resources(final(self)),
            final(self).spec_quad_pipeline().quads() == old(self).spec_quad_pipeline().quads().push(
                quad_request(
                    position,
                    scale,
                    angle,
                    color,
                    match texture_name {
                        Some(name) => Some(name@),
                        None => None,
                    },
                ),
            ),
            final(self).spec_line_pipeline() == old(self).spec_line_pipeline(),
            final(self).spec_circle_pipeline() == old(self).spec_circle_pipeline(),
    {
        self.quad_pipeline.push(
            QuadInfo {
                color,
                texture_name,
                transform: TransformComponent {
                    position: MatrixFactor::Translation(position),
                    scale: MatrixFactor::Scale(scale),
                    rotation: MatrixFactor::RotationZ(angle),
                },
            },
        );
    }

    /// Submits a line from `orig` to `dest`. Nothing is uploaded or drawn.
    pub fn render_line(&mut self, orig: Vec3, dest: Vec3, color: Color)
        requires
            old(self).well_formed(),
        ensures
            final(self).well_formed(),
            old(self).same_resources(final(self)),
            final(self).spec_line_pipeline().lines() == old(self).spec_line_pipeline().lines().push(
                line_request(orig, dest, color),
            ),
            final(self).spec_quad_pipeline() == old(self).spec_quad_pipeline(),
            final(self).spec_circle_pipeline() == old(self).spec_circle_pipeline(),
    {
        self.line_pipeline.push(
            LineInfo {
                color,
                transform: LineComponent {
                    orig: MatrixFactor::Translation(orig),
                    dest: MatrixFactor::Translation(dest),
                },
            },
        );
    }

    /// Submits the outline of the rectangle of the given size about
    /// `position`, turned about its centre by `angle` radians
    /// counter-clockwise, as four lines that join its corners in order and
    /// close the loop. Nothing is uploaded or drawn.
    pub fn render_rect(&mut self, position: Vec3, size: Vec3, angle: Scalar, color: Color)
        requires
            old(self).well_formed(),
        ensures
            final(self).well_formed(),
            old(self).same_resources(final(self)),
            final(self).spec_line_pipeline().lines() == old(self).spec_line_pipeline().lines()
                + rect_outline(position, size, angle, color),
            final(self).spec_quad_pipeline() == old(self).spec_quad_pipeline(),
            final(self).spec_circle_pipeline() == old(self).spec_circle_pipeline(),
    {
        let mut corner = Corner::TopLeft;
        let mut i: usize = 0;
        while i < 4
            invariant
                i <= 4,
                self.well_formed(),
                old(self).same_resources(self),
                self.spec_quad_pipeline() == old(self).spec_quad_pipeline(),
                self.spec_circle_pipeline() == old(self).spec_circle_pipeline(),
                self.spec_line_pipeline().lines() == old(self).spec_line_pipeline().lines()
                    + rect_outline(position, size, angle, color).take(i as int),
                i < 4 ==> rect_outline(position, size, angle, color)[i as int] == rect_side(
                    position,
                    size,
                    angle,
                    color,
                    corner,
                ),
            decreases 4 - i,
        {
            let next = corner.next();
            let ghost before = self.spec_line_pipeline().lines();
            self.line_pipeline.push(
                LineInfo {
                    color,
                    transform: LineComponent {
                        orig: MatrixFactor::CornerTranslation {
                            center: position,
                            size,
                            angle,
                            corner,
                        },
                        dest: MatrixFactor::CornerTranslation {
                            center: position,
                            size,
                            angle,
                            corner: next,
                        },
                    },
                },
            );
            assert(self.spec_line_pipeline().lines() =~= old(self).spec_line_pipeline().lines()
                + rect_outline(position, size, angle, color).take(i as int + 1));
            corner = next;
            i += 1;
        }
        assert(rect_outline(position, size, angle, color).take(4) =~= rect_outline(
            position,
            size,
            angle,
            color,
        ));
    }

    /// Submits a circle: a ring inscribed in the unit quad scaled by `scale`
    /// and moved to `position`. `thickness` and `fade` reach the fragment
    /// stage unchanged. Nothing is uploaded or drawn.
    pub fn render_circle(
        &mut self,
        position: Vec3,
        scale: Vec3,
        thickness: Scalar,
        fade: Scalar,
        color: Color,
    )
        requires
            old(self).well_formed(),
        ensures
            final(self).well_formed(),
            old(self).same_resources(final(self)),
            final(self).spec_circle_pipeline().circles() == old(self).spec_circle_pipeline().circles().push(
                circle_request(position, scale, thickness, fade, color),
            ),
            final(self).spec_quad_pipeline() == old(self).spec_quad_pipeline(),
            final(self).spec_line_pipeline() == old(self).spec_line_pipeline(),
    {
        self.circle_pipeline.push(
            CircleInfo {
                transform: TransformComponent {
                    position: MatrixFactor::Translation(position),
                    scale: MatrixFactor::Scale(scale),
                    rotation: MatrixFactor::Identity,
                },
                thickness,
                fade,
                color,
            },
        );
    }

    /// The writes that put the pending quads into their uniform buffers.
    pub fn update_quad_data(&self) -> (r: Result<Vec<UploadWrite>, FrameError>)
        requires
            self.well_formed(),
        ensures
            match overflow_fault(
                PrimitiveKind::Quad,
                self.spec_quad_pipeline().quads().len(),
                QUAD_MAX_INSTANCES as nat,
            ) {
                Some(e) => r == Err::<Vec<UploadWrite>, FrameError>(e),
                None => r is Ok && r->Ok_0@ == quad_uploads(
                    self.spec_quad_pipeline().quads(),
                    self.spec_projection(),
                    self.spec_quad_pipeline().spec_color_slot(),
                    self.spec_quad_pipeline().spec_transform_slot(),
                ),
            },
    {
        self.quad_pipeline.upload_writes(self.projection)
    }

    /// The writes that put the pending lines into their uniform buffers.
    pub fn update_line_data(&self) -> (r: Result<Vec<UploadWrite>, FrameError>)
        requires
            self.well_formed(),
        ensures
            match overflow_fault(
                PrimitiveKind::Line,
                self.spec_line_pipeline().lines().len(),
                LINE_MAX_INSTANCES as nat,
            ) {
                Some(e) => r == Err::<Vec<UploadWrite>, FrameError>(e),
                None => r is Ok && r->Ok_0@ == line_uploads(
                    self.spec_line_pipeline().lines(),
                    self.spec_projection(),
                    self.spec_line_pipeline().spec_color_slot(),
                    self.spec_line_pipeline().spec_orig_slot(),
                    self.spec_line_pipeline().spec_dest_slot(),
                ),
            },
    {
        self.line_pipeline.upload_writes(self.projection)
    }

    /// The writes that put the pending circles into their uniform buffer.
    pub fn update_circle_data(&self) -> (r: Result<Vec<UploadWrite>, FrameError>)
        requires
            self.well_formed(),
        ensures
            match capacity_fault(
                PrimitiveKind::Circle,
                self.spec_circle_pipeline().circles().len(),
                circle_capacity_spec(self.spec_circle_pipeline().spec_alignment()),
            ) {
                Some(e) => r == Err::<Vec<UploadWrite>, FrameError>(e),
                None => r is Ok && r->Ok_0@ == circle_uploads(
                    self.spec_circle_pipeline().circles(),
                    self.spec_projection(),
                    self.spec_circle_pipeline().spec_circle_slot(),
                ),
            },
    {
        self.circle_pipeline.upload_writes(self.projection)
    }

    /// The writes of the whole frame: those of the quads, then those of the
    /// lines, then those of the circles. They must all be carried out before
    /// the first draw call of the frame.
    ///
    /// Fails with the `CapacityOverflow` of the first kind, quads first, of
    /// which more instances are pending than its buffers hold.
    pub fn flush_uploads(&self) -> (r: Result<Vec<UploadWrite>, FrameError>)
        requires
            self.well_formed(),
        ensures
            match upload_fault(
                self.spec_quad_pipeline().quads().len(),
                self.spec_line_pipeline().lines().len(),
                self.spec_circle_pipeline().circles().len(),
                circle_capacity_spec(self.spec_circle_pipeline().spec_alignment()),
            ) {
                Some(e) => r == Err::<Vec<UploadWrite>, FrameError>(e),
                None => r is Ok && r->Ok_0@ == quad_uploads(
                    self.spec_quad_pipeline().quads(),
                    self.spec_projection(),
                    self.spec_quad_pipeline().spec_color_slot(),
                    self.spec_quad_pipeline().spec_transform_slot(),
                ) + line_uploads(
                    self.spec_line_pipeline().lines(),
                    self.spec_projection(),
                    self.spec_line_pipeline().spec_color_slot(),
                    self.spec_line_pipeline().spec_orig_slot(),
                    self.spec_line_pipeline().spec_dest_slot(),
                ) + circle_uploads(
                    self.spec_circle_pipeline().circles(),
                    self.spec_projection(),
                    self.spec_circle_pipeline().spec_circle_slot(),
                ),
            },
    {
        let mut writes: Vec<UploadWrite> = match self.update_quad_data() {
            Ok(w) => w,
            Err(e) => {
                return Err(e);
            },
        };
        let mut lines: Vec<UploadWrite> = match self.update_line_data() {
            Ok(w) => w,
            Err(e) => {
                return Err(e);
            },
        };
        let mut circles: Vec<UploadWrite> = match self.update_circle_data() {
            Ok(w) => w,
            Err(e) => {
                return Err(e);
            },
        };
        writes.append(&mut lines);
        writes.append(&mut circles);
        Ok(writes)
    }

    /// The draw calls of the pending quads.
    pub fn render_quads(&self) -> (r: Result<Vec<DrawCall>, FrameError>)
        requires
            self.well_formed(),
        ensures
            match r {
                Ok(calls) => quads_drawable(
                    self.spec_quad_pipeline().quads(),
                    self.spec_texture_map().ids(),
                ) && calls@ == quad_draws(
                    self.spec_quad_pipeline().quads(),
                    self.spec_texture_map().ids(),
                    self.spec_quad_pipeline().spec_color_slot(),
                    self.spec_quad_pipeline().spec_transform_slot(),
                ),
                Err(e) => quad_draw_fault(
                    self.spec_quad_pipeline().quads(),
                    self.spec_texture_map().ids(),
                    e,
                ),
            },
    {
        self.quad_pipeline.draw_calls(&self.texture_map)
    }

    /// The draw calls of the pending lines.
    pub fn render_lines(&self) -> (r: Result<Vec<DrawCall>, FrameError>)
        requires
            self.well_formed(),
        ensures
            match overflow_fault(
                PrimitiveKind::Line,
                self.spec_line_pipeline().lines().len(),
                LINE_MAX_INSTANCES as nat,
            ) {
                Some(e) => r == Err::<Vec<DrawCall>, FrameError>(e),
                None => r is Ok && r->Ok_0@ == line_draws(
                    self.spec_line_pipeline().lines().len(),
                    self.spec_line_pipeline().spec_color_slot(),
                    self.spec_line_pipeline().spec_orig_slot(),
                    self.spec_line_pipeline().spec_dest_slot(),
                ),
            },
    {
        self.line_pipeline.draw_calls()
    }

    /// The draw calls of the pending circles.
    pub fn render_circles(&self) -> (r: Result<Vec<DrawCall>, FrameError>)
        requires
            self.well_formed(),
        ensures
            match capacity_fault(
                PrimitiveKind::Circle,
                self.spec_circle_pipeline().circles().len(),
                circle_capacity_spec(self.spec_circle_pipeline().spec_alignment()),
            ) {
                Some(e) => r == Err::<Vec<DrawCall>, FrameError>(e),
                None => r is Ok && r->Ok_0@ == circle_draws(
                    self.spec_circle_pipeline().circles().len(),
                    self.spec_circle_pipeline().spec_circle_slot(),
                ),
            },
    {
        self.circle_pipeline.draw_calls()
    }

    /// The draw calls of the whole frame, in paint order: all quads, then
    /// all lines, then all circles, each kind in the order of submission.
    ///
    /// Fails with the error of the first kind, quads first, that cannot be
    /// drawn.
    pub fn draw(&self) -> (r: Result<Vec<DrawCall>, FrameError>)
        requires
            self.well_formed(),
        ensures
            match r {
                Ok(calls) => {
                    &&& quads_drawable(
                        self.spec_quad_pipeline().quads(),
                        self.spec_texture_map().ids(),
                    )
                    &&& overflow_fault(
                        PrimitiveKind::Line,
                        self.spec_line_pipeline().lines().len(),
                        LINE_MAX_INSTANCES as nat,
                    ) is None
                    &&& capacity_fault(
                        PrimitiveKind::Circle,
                        self.spec_circle_pipeline().circles().len(),
                        circle_capacity_spec(self.spec_circle_pipeline().spec_alignment()),
                    ) is None
                    &&& calls@ == frame_draws(
                        quad_draws(
                            self.spec_quad_pipeline().quads(),
                            self.spec_texture_map().ids(),
                            self.spec_quad_pipeline().spec_color_slot(),
                            self.spec_quad_pipeline().spec_transform_slot(),
                        ),
                        line_draws(
                            self.spec_line_pipeline().lines().len(),
                            self.spec_line_pipeline().spec_color_slot(),
                            self.spec_line_pipeline().spec_orig_slot(),
                            self.spec_line_pipeline().spec_dest_slot(),
                        ),
                        circle_draws(
                            self.spec_circle_pipeline().circles().len(),
                            self.spec_circle_pipeline().spec_circle_slot(),
                        ),
                    )
                },
                Err(e) => {
                    ||| quad_draw_fault(
                        self.spec_quad_pipeline().quads(),
                        self.spec_texture_map().ids(),
                        e,
                    )
                    ||| {
                        &&& quads_drawable(
                            self.spec_quad_pipeline().quads(),
                            self.spec_texture_map().ids(),
                        )
                        &&& overflow_fault(
                            PrimitiveKind::Line,
                            self.spec_line_pipeline().lines().len(),
                            LINE_MAX_INSTANCES as nat,
                        ) == Some(e)
                    }
                    ||| {
                        &&& quads_drawable(
                            self.spec_quad_pipeline().quads(),
                            self.spec_texture_map().ids(),
                        )
                        &&& overflow_fault(
                            PrimitiveKind::Line,
                            self.spec_line_pipeline().lines().len(),
                            LINE_MAX_INSTANCES as nat,
                        ) is None
                        &&& capacity_fault(
                            PrimitiveKind::Circle,
                            self.spec_circle_pipeline().circles().len(),
                            circle_capacity_spec(self.spec_circle_pipeline().spec_alignment()),
                        ) == Some(e)
                    }
                },
            },
    {
        let mut calls: Vec<DrawCall> = match self.render_quads() {
            Ok(c) => c,
            Err(e) => {
                return Err(e);
            },
        };
        let mut lines: Vec<DrawCall> = match self.render_lines() {
            Ok(c) => c,
            Err(e) => {
                return Err(e);
            },
        };
        let mut circles: Vec<DrawCall> = match self.render_circles() {
            Ok(c) => c,
            Err(e) => {
                return Err(e);
            },
        };
        calls.append(&mut lines);
        calls.append(&mut circles);
        Ok(calls)
    }

    /// Starts a frame: nothing is pending, whatever the frame before left
    /// behind. Textures stay.
    pub fn begin_frame(&mut self)
        requires
            old(self).well_formed(),
        ensures
            final(self).well_formed(),
            old(self).same_resources(final(self)),
            final(self).spec_quad_pipeline().quads() == Seq::<QuadModel>::empty(),
            final(self).spec_line_pipeline().lines() == Seq::<LineInfo>::empty(),
            final(self).spec_circle_pipeline().circles() == Seq::<CircleInfo>::empty(),
    {
        self.end_frame();
    }

    /// Ends the frame: every pending request is forgotten. Textures stay.
    pub fn end_frame(&mut self)
        requires
            old(self).well_formed(),
        ensures
            final(self).well_formed(),
            old(self).same_resources(final(self)),
            final(self).spec_quad_pipeline().quads() == Seq::<QuadModel>::empty(),
            final(self).spec_line_pipeline().lines() == Seq::<LineInfo>::empty(),
            final(self).spec_circle_pipeline().circles() == Seq::<CircleInfo>::empty(),
    {
        self.quad_pipeline.clear();
        self.line_pipeline.clear();
        self.circle_pipeline.clear();
    }
}

} // verus!
