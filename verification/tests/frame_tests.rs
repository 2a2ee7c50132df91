use bm::circle::CIRCLE_MAX_INSTANCES;
use bm::engine::Engine;
use bm::geometry::Color;
use bm::geometry::Corner;
use bm::geometry::MatrixFactor;
use bm::geometry::MatrixProduct;
use bm::geometry::Projection;
use bm::geometry::Scalar;
use bm::geometry::Vec3;
use bm::layout::SetupError;
use bm::layout::ShaderStages;
use bm::line::LINE_MAX_INSTANCES;
use bm::mesh::quad_vertices;
use bm::plan::DrawCall;
use bm::plan::FrameError;
use bm::plan::PrimitiveKind;
use bm::plan::UniformData;
use bm::quad::QUAD_MAX_INSTANCES;

fn s(x: f32) -> Scalar {
    Scalar::from_bits(x.to_bits())
}

fn f(x: Scalar) -> f32 {
    f32::from_bits(x.to_bits())
}

fn v3(x: f32, y: f32, z: f32) -> Vec3 {
    Vec3::new(s(x), s(y), s(z))
}

fn g3(v: Vec3) -> glam::Vec3 {
    glam::Vec3::new(f(v.x), f(v.y), f(v.z))
}

fn rgba(r: f32, g: f32, b: f32, a: f32) -> Color {
    Color::new(s(r), s(g), s(b), s(a))
}

fn white() -> Color {
    rgba(1.0, 1.0, 1.0, 1.0)
}

fn engine() -> Engine {
    Engine::new(256).unwrap()
}

fn matrix(factor: MatrixFactor) -> glam::Mat4 {
    match factor {
        MatrixFactor::Identity => glam::Mat4::IDENTITY,
        MatrixFactor::Projection(p) => glam::Mat4::orthographic_lh(
            p.left as f32,
            p.right as f32,
            p.bottom as f32,
            p.top as f32,
            p.near as f32,
            p.far as f32,
        ),
        MatrixFactor::Translation(v) => glam::Mat4::from_translation(g3(v)),
        MatrixFactor::RotationZ(a) => glam::Mat4::from_rotation_z(f(a)),
        MatrixFactor::Scale(v) => glam::Mat4::from_scale(g3(v)),
        MatrixFactor::CornerTranslation { center, size, angle, corner } => {
            let c = g3(center);
            let dx = if corner.is_right() { f(size.x) / 2.0 } else { -f(size.x) / 2.0 };
            let dy = if corner.is_top() { f(size.y) / 2.0 } else { -f(size.y) / 2.0 };
            let (sin, cos) = f(angle).sin_cos();
            glam::Mat4::from_translation(glam::Vec3::new(
                dx * cos - dy * sin + c.x,
                dx * sin + dy * cos + c.y,
                c.z,
            ))
        }
    }
}

fn point(factor: MatrixFactor) -> glam::Vec3 {
    matrix(factor).transform_point3(glam::Vec3::ZERO)
}

fn model_without_projection(product: MatrixProduct) -> glam::Mat4 {
    let factors = product.factors();
    assert_eq!(factors.len(), 4);
    assert!(matches!(factors[0], MatrixFactor::Projection(_)));
    matrix(factors[1]) * matrix(factors[2]) * matrix(factors[3])
}

#[test]
fn a_new_engine_has_nothing_pending() {
    let e = engine();
    assert_eq!(e.quad_pipeline().len(), 0);
    assert_eq!(e.line_pipeline().len(), 0);
    assert_eq!(e.circle_pipeline().len(), 0);
    assert_eq!(e.flush_uploads().unwrap().len(), 0);
    assert_eq!(e.draw().unwrap().len(), 0);
    assert_eq!(e.projection(), Projection::viewport(800, 600));
}

#[test]
fn the_projection_has_its_origin_at_the_bottom_left() {
    let p = Projection::engine_default();
    assert_eq!((p.left, p.right, p.bottom, p.top, p.near, p.far), (0, 800, 0, 600, -1, 1));
    let m = matrix(MatrixFactor::Projection(p));
    let corner = m.transform_point3(glam::Vec3::new(0.0, 0.0, 0.0));
    assert!((corner.x + 1.0).abs() < 1e-6);
    assert!((corner.y + 1.0).abs() < 1e-6);
    let opposite = m.transform_point3(glam::Vec3::new(800.0, 600.0, 0.0));
    assert!((opposite.x - 1.0).abs() < 1e-6);
    assert!((opposite.y - 1.0).abs() < 1e-6);
}

#[test]
fn quads_round_trip_through_the_accumulator() {
    let mut e = engine();
    let colors = [rgba(1.0, 0.0, 0.0, 1.0), rgba(0.0, 1.0, 0.0, 0.5), rgba(0.0, 0.0, 1.0, 0.25)];
    for (i, c) in colors.iter().enumerate() {
        e.render_quad(v3(i as f32, 2.0, 0.0), v3(3.0, 4.0, 1.0), s(0.5), *c, None);
    }
    assert_eq!(e.quad_pipeline().len(), 3);
    let writes = e.update_quad_data().unwrap();
    assert_eq!(writes.len(), 6);
    for i in 0..3usize {
        let color = writes[2 * i];
        assert_eq!(color.kind, PrimitiveKind::Quad);
        assert_eq!(color.binding, 0);
        assert_eq!(color.offset, (i as u64 + 1) * 256);
        assert_eq!(color.data, UniformData::Color(colors[i]));
        let model = writes[2 * i + 1];
        assert_eq!(model.kind, PrimitiveKind::Quad);
        assert_eq!(model.binding, 1);
        assert_eq!(model.offset, (i as u64 + 1) * 256);
        assert_eq!(
            model.data,
            UniformData::Matrix(MatrixProduct {
                first: MatrixFactor::Projection(Projection::viewport(800, 600)),
                second: MatrixFactor::Translation(v3(i as f32, 2.0, 0.0)),
                third: MatrixFactor::RotationZ(s(0.5)),
                fourth: MatrixFactor::Scale(v3(3.0, 4.0, 1.0)),
            })
        );
    }
    e.end_frame();
    assert_eq!(e.quad_pipeline().len(), 0);
    assert_eq!(e.update_quad_data().unwrap().len(), 0);
    assert_eq!(e.draw().unwrap().len(), 0);
}

#[test]
fn offsets_follow_the_stride_of_each_buffer() {
    let mut e = Engine::new(32).unwrap();
    assert_eq!(e.quad_pipeline().color_uniform_alignment(), 32);
    assert_eq!(e.quad_pipeline().transform_uniform_alignment(), 64);
    e.render_quad(v3(0.0, 0.0, 0.0), v3(1.0, 1.0, 1.0), s(0.0), white(), None);
    e.render_quad(v3(0.0, 0.0, 0.0), v3(1.0, 1.0, 1.0), s(0.0), white(), None);
    let writes = e.update_quad_data().unwrap();
    let offsets: Vec<u64> = writes.iter().map(|w| w.offset).collect();
    assert_eq!(offsets, vec![32, 64, 64, 128]);
    let calls = e.render_quads().unwrap();
    assert_eq!(
        calls,
        vec![
            DrawCall::Quad { texture: 0, color_offset: 32, transform_offset: 64 },
            DrawCall::Quad { texture: 0, color_offset: 64, transform_offset: 128 },
        ]
    );
}

#[test]
fn the_model_matrix_scales_then_rotates_then_translates() {
    let mut e = engine();
    e.render_quad(v3(10.0, 20.0, 0.0), v3(2.0, 2.0, 1.0), s(0.0), white(), None);
    let writes = e.update_quad_data().unwrap();
    let product = match writes[1].data {
        UniformData::Matrix(m) => m,
        other => panic!("not a matrix: {:?}", other),
    };
    let model = model_without_projection(product);
    let expected = glam::Mat4::from_translation(glam::Vec3::new(10.0, 20.0, 0.0))
        * glam::Mat4::from_scale(glam::Vec3::new(2.0, 2.0, 1.0));
    assert!(model.abs_diff_eq(expected, 1e-6));
    let top_right = quad_vertices()[0].position;
    assert_eq!(g3(top_right), glam::Vec3::new(0.5, 0.5, 0.0));
    let moved = model.transform_point3(g3(top_right));
    assert!(moved.abs_diff_eq(glam::Vec3::new(11.0, 21.0, 0.0), 1e-5));
}

#[test]
fn a_turned_quad_is_turned_about_its_own_centre() {
    let mut e = engine();
    let quarter = std::f32::consts::FRAC_PI_2;
    e.render_quad(v3(10.0, 20.0, 0.0), v3(2.0, 4.0, 1.0), s(quarter), white(), None);
    let writes = e.update_quad_data().unwrap();
    let product = match writes[1].data {
        UniformData::Matrix(m) => m,
        other => panic!("not a matrix: {:?}", other),
    };
    let moved = model_without_projection(product).transform_point3(glam::Vec3::new(0.5, 0.5, 0.0));
    assert!(moved.abs_diff_eq(glam::Vec3::new(8.0, 21.0, 0.0), 1e-4));
}

#[test]
fn a_rect_outline_is_four_lines_in_a_closed_loop() {
    let mut e = engine();
    let red = rgba(1.0, 0.0, 0.0, 1.0);
    e.render_rect(v3(0.0, 0.0, 0.0), v3(10.0, 10.0, 0.0), s(0.0), red);
    assert_eq!(e.line_pipeline().len(), 4);
    assert_eq!(e.quad_pipeline().len(), 0);
    assert_eq!(e.circle_pipeline().len(), 0);
    let square = [
        glam::Vec3::new(-5.0, 5.0, 0.0),
        glam::Vec3::new(5.0, 5.0, 0.0),
        glam::Vec3::new(5.0, -5.0, 0.0),
        glam::Vec3::new(-5.0, -5.0, 0.0),
    ];
    let mut endpoints: Vec<glam::Vec3> = Vec::new();
    for i in 0..4usize {
        let line = e.line_pipeline().get(i).unwrap();
        assert_eq!(line.color, red);
        assert_eq!(point(line.transform.orig), square[i]);
        assert_eq!(point(line.transform.dest), square[(i + 1) % 4]);
        endpoints.push(point(line.transform.orig));
        endpoints.push(point(line.transform.dest));
    }
    assert_eq!(endpoints.len(), 8);
    for corner in square.iter() {
        assert_eq!(endpoints.iter().filter(|p| *p == corner).count(), 2);
    }
    assert!(e.line_pipeline().get(4).is_none());
}

#[test]
fn a_rect_outline_names_its_corners_in_order() {
    let mut e = engine();
    let position = v3(500.0, 300.0, 0.0);
    let size = v3(130.0, 60.0, 0.0);
    let angle = s(0.25);
    e.render_rect(position, size, angle, white());
    let order = [Corner::TopLeft, Corner::TopRight, Corner::BottomRight, Corner::BottomLeft];
    for i in 0..4usize {
        let line = e.line_pipeline().get(i).unwrap();
        assert_eq!(
            line.transform.orig,
            MatrixFactor::CornerTranslation { center: position, size, angle, corner: order[i] }
        );
        assert_eq!(
            line.transform.dest,
            MatrixFactor::CornerTranslation {
                center: position,
                size,
                angle,
                corner: order[(i + 1) % 4],
            }
        );
        assert_eq!(order[i].next(), order[(i + 1) % 4]);
    }
    assert!(Corner::TopRight.is_right() && Corner::TopRight.is_top());
    assert!(Corner::BottomRight.is_right() && !Corner::BottomRight.is_top());
    assert!(!Corner::BottomLeft.is_right() && !Corner::BottomLeft.is_top());
    assert!(!Corner::TopLeft.is_right() && Corner::TopLeft.is_top());
}

#[test]
fn a_turned_rect_is_turned_about_its_centre() {
    let mut e = engine();
    let quarter = std::f32::consts::FRAC_PI_2;
    e.render_rect(v3(100.0, 50.0, 0.0), v3(20.0, 10.0, 0.0), s(quarter), white());
    let expected = [
        glam::Vec3::new(95.0, 40.0, 0.0),
        glam::Vec3::new(95.0, 60.0, 0.0),
        glam::Vec3::new(105.0, 60.0, 0.0),
        glam::Vec3::new(105.0, 40.0, 0.0),
    ];
    for i in 0..4usize {
        let line = e.line_pipeline().get(i).unwrap();
        assert!(point(line.transform.orig).abs_diff_eq(expected[i], 1e-4));
        assert!(point(line.transform.dest).abs_diff_eq(expected[(i + 1) % 4], 1e-4));
    }
}

#[test]
fn a_rect_outline_comes_after_the_lines_before_it() {
    let mut e = engine();
    e.render_line(v3(1.0, 2.0, 0.0), v3(3.0, 4.0, 0.0), white());
    e.render_rect(v3(0.5, 0.5, 0.0), v3(1.0, 1.0, 0.0), s(0.0), white());
    assert_eq!(e.line_pipeline().len(), 5);
    let first = e.line_pipeline().get(0).unwrap();
    assert_eq!(first.transform.orig, MatrixFactor::Translation(v3(1.0, 2.0, 0.0)));
    let last = e.line_pipeline().get(4).unwrap();
    assert_eq!(point(last.transform.orig), glam::Vec3::new(0.0, 0.0, 0.0));
    assert_eq!(point(last.transform.dest), glam::Vec3::new(0.0, 1.0, 0.0));
}

#[test]
fn lines_upload_a_colour_and_two_ends() {
    let mut e = engine();
    let pink = rgba(1.0, 0.3, 0.7, 1.0);
    e.render_line(v3(1.0, 2.0, 0.0), v3(3.0, 4.0, 0.0), pink);
    e.render_line(v3(5.0, 6.0, 0.0), v3(7.0, 8.0, 0.0), white());
    let writes = e.update_line_data().unwrap();
    assert_eq!(writes.len(), 6);
    let bindings: Vec<u32> = writes.iter().map(|w| w.binding).collect();
    assert_eq!(bindings, vec![0, 1, 2, 0, 1, 2]);
    let offsets: Vec<u64> = writes.iter().map(|w| w.offset).collect();
    assert_eq!(offsets, vec![256, 256, 256, 512, 512, 512]);
    assert_eq!(writes[0].data, UniformData::Color(pink));
    let projection = MatrixFactor::Projection(Projection::viewport(800, 600));
    assert_eq!(
        writes[1].data,
        UniformData::Matrix(MatrixProduct {
            first: projection,
            second: MatrixFactor::Translation(v3(1.0, 2.0, 0.0)),
            third: MatrixFactor::Identity,
            fourth: MatrixFactor::Identity,
        })
    );
    assert_eq!(
        writes[5].data,
        UniformData::Matrix(MatrixProduct {
            first: projection,
            second: MatrixFactor::Translation(v3(7.0, 8.0, 0.0)),
            third: MatrixFactor::Identity,
            fourth: MatrixFactor::Identity,
        })
    );
    assert!(writes.iter().all(|w| w.kind == PrimitiveKind::Line));
    let calls = e.render_lines().unwrap();
    assert_eq!(
        calls,
        vec![
            DrawCall::Line { color_offset: 256, orig_offset: 256, dest_offset: 256 },
            DrawCall::Line { color_offset: 512, orig_offset: 512, dest_offset: 512 },
        ]
    );
    assert_eq!(calls[1].dynamic_offsets(), vec![512, 512, 512]);
    assert_eq!(calls[1].vertex_count(), 2);
    assert!(!calls[1].is_indexed());
}

#[test]
fn circles_forward_thickness_and_fade() {
    let mut e = engine();
    let orange = rgba(1.0, 0.5, 0.3, 1.0);
    e.render_circle(v3(100.0, 100.0, 0.0), v3(700.0, 200.0, 0.0), s(1.0), s(0.009), orange);
    let writes = e.update_circle_data().unwrap();
    assert_eq!(writes.len(), 1);
    assert_eq!(writes[0].kind, PrimitiveKind::Circle);
    assert_eq!(writes[0].binding, 0);
    assert_eq!(writes[0].offset, 256);
    match writes[0].data {
        UniformData::Circle(u) => {
            assert_eq!(u.color, orange);
            assert_eq!(f(u.thickness), 1.0);
            assert_eq!(f(u.fade), 0.009);
            assert_eq!(
                u.model,
                MatrixProduct {
                    first: MatrixFactor::Projection(Projection::viewport(800, 600)),
                    second: MatrixFactor::Translation(v3(100.0, 100.0, 0.0)),
                    third: MatrixFactor::Identity,
                    fourth: MatrixFactor::Scale(v3(700.0, 200.0, 0.0)),
                }
            );
        }
        other => panic!("not a circle: {:?}", other),
    }
    assert_eq!(writes[0].data.size(), 88);
    let calls = e.render_circles().unwrap();
    assert_eq!(calls, vec![DrawCall::Circle { uniform_offset: 256 }]);
    assert_eq!(calls[0].vertex_count(), 6);
    assert!(calls[0].is_indexed());
    assert_eq!(calls[0].dynamic_offsets(), vec![256]);
}

#[test]
fn quads_are_painted_before_lines_before_circles() {
    let mut e = engine();
    e.render_circle(v3(1.0, 1.0, 0.0), v3(2.0, 2.0, 0.0), s(1.0), s(0.0), white());
    e.render_line(v3(0.0, 0.0, 0.0), v3(1.0, 1.0, 0.0), white());
    e.render_quad(v3(0.0, 0.0, 0.0), v3(1.0, 1.0, 1.0), s(0.0), white(), None);
    e.render_line(v3(2.0, 2.0, 0.0), v3(3.0, 3.0, 0.0), white());
    e.render_quad(v3(5.0, 5.0, 0.0), v3(1.0, 1.0, 1.0), s(0.0), white(), None);
    let calls = e.draw().unwrap();
    let kinds: Vec<PrimitiveKind> = calls.iter().map(|c| c.kind()).collect();
    assert_eq!(
        kinds,
        vec![
            PrimitiveKind::Quad,
            PrimitiveKind::Quad,
            PrimitiveKind::Line,
            PrimitiveKind::Line,
            PrimitiveKind::Circle,
        ]
    );
    let ranks: Vec<u8> = kinds.iter().map(|k| k.paint_rank()).collect();
    assert_eq!(ranks, vec![0, 0, 1, 1, 2]);
    assert_eq!(
        calls[0],
        DrawCall::Quad { texture: 0, color_offset: 256, transform_offset: 256 }
    );
    assert_eq!(calls[0].vertex_count(), 6);
    assert_eq!(calls[0].dynamic_offsets(), vec![256, 256]);
    assert_eq!(calls[4], DrawCall::Circle { uniform_offset: 256 });
}

#[test]
fn a_line_before_a_quad_is_still_drawn_after_it() {
    let mut e = engine();
    e.render_line(v3(0.0, 0.0, 0.0), v3(1.0, 1.0, 0.0), white());
    e.render_quad(v3(0.0, 0.0, 0.0), v3(1.0, 1.0, 1.0), s(0.0), white(), None);
    let calls = e.draw().unwrap();
    assert_eq!(calls.len(), 2);
    assert_eq!(calls[0].kind(), PrimitiveKind::Quad);
    assert_eq!(calls[1].kind(), PrimitiveKind::Line);
    let writes = e.flush_uploads().unwrap();
    let kinds: Vec<PrimitiveKind> = writes.iter().map(|w| w.kind).collect();
    assert_eq!(
        kinds,
        vec![
            PrimitiveKind::Quad,
            PrimitiveKind::Quad,
            PrimitiveKind::Line,
            PrimitiveKind::Line,
            PrimitiveKind::Line,
        ]
    );
}

#[test]
fn the_last_slot_of_the_quad_buffers_can_be_used() {
    let mut e = engine();
    let capacity = QUAD_MAX_INSTANCES as usize - 1;
    for _ in 0..capacity {
        e.render_quad(v3(0.0, 0.0, 0.0), v3(1.0, 1.0, 1.0), s(0.0), white(), None);
    }
    let writes = e.update_quad_data().unwrap();
    assert_eq!(writes.len(), 2 * capacity);
    let last = writes[writes.len() - 1];
    assert_eq!(last.offset, 39 * 256);
    assert!(last.offset + last.data.size() <= e.quad_pipeline().transform_slot().buffer_size);
    assert_eq!(e.quad_pipeline().transform_slot().buffer_size, 40 * 256);
    assert_eq!(e.render_quads().unwrap().len(), capacity);
}

#[test]
fn too_many_quads_overflow_the_buffers() {
    let mut e = engine();
    for _ in 0..QUAD_MAX_INSTANCES {
        e.render_quad(v3(0.0, 0.0, 0.0), v3(1.0, 1.0, 1.0), s(0.0), white(), None);
    }
    let expected =
        FrameError::CapacityOverflow { kind: PrimitiveKind::Quad, submitted: 40, capacity: 39 };
    assert_eq!(e.update_quad_data(), Err(expected));
    assert_eq!(e.render_quads(), Err(expected));
    assert_eq!(e.flush_uploads(), Err(expected));
    assert_eq!(e.draw(), Err(expected));
    e.end_frame();
    assert_eq!(e.flush_uploads().unwrap().len(), 0);
}

#[test]
fn too_many_lines_overflow_the_buffers() {
    let mut e = engine();
    for _ in 0..(LINE_MAX_INSTANCES - 1) {
        e.render_line(v3(0.0, 0.0, 0.0), v3(1.0, 1.0, 0.0), white());
    }
    assert_eq!(e.update_line_data().unwrap().len(), 3 * 39);
    assert_eq!(e.render_lines().unwrap().len(), 39);
    e.render_line(v3(0.0, 0.0, 0.0), v3(1.0, 1.0, 0.0), white());
    let expected =
        FrameError::CapacityOverflow { kind: PrimitiveKind::Line, submitted: 40, capacity: 39 };
    assert_eq!(e.update_line_data(), Err(expected));
    assert_eq!(e.render_lines(), Err(expected));
    assert_eq!(e.flush_uploads(), Err(expected));
    assert_eq!(e.draw(), Err(expected));
    assert_eq!(e.update_quad_data().unwrap().len(), 0);
}

#[test]
fn ten_rect_outlines_overflow_the_line_buffers() {
    let mut e = engine();
    for _ in 0..9 {
        e.render_rect(v3(0.5, 0.5, 0.0), v3(1.0, 1.0, 0.0), s(0.0), white());
    }
    assert_eq!(e.render_lines().unwrap().len(), 36);
    e.render_rect(v3(0.5, 0.5, 0.0), v3(1.0, 1.0, 0.0), s(0.0), white());
    assert!(matches!(
        e.render_lines(),
        Err(FrameError::CapacityOverflow { kind: PrimitiveKind::Line, submitted: 40, capacity: 39 })
    ));
}

#[test]
fn too_many_circles_overflow_the_buffer() {
    let mut e = engine();
    for _ in 0..(CIRCLE_MAX_INSTANCES - 1) {
        e.render_circle(v3(0.0, 0.0, 0.0), v3(1.0, 1.0, 0.0), s(1.0), s(0.0), white());
    }
    let writes = e.update_circle_data().unwrap();
    assert_eq!(writes.len(), 299_999);
    assert_eq!(writes[299_998].offset, 299_999 * 256);
    assert_eq!(e.circle_pipeline().uniform_slots()[0].buffer_size, 300_000 * 256);
    e.render_circle(v3(0.0, 0.0, 0.0), v3(1.0, 1.0, 0.0), s(1.0), s(0.0), white());
    let expected = FrameError::CapacityOverflow {
        kind: PrimitiveKind::Circle,
        submitted: 300_000,
        capacity: 299_999,
    };
    assert_eq!(e.update_circle_data(), Err(expected));
    assert_eq!(e.render_circles(), Err(expected));
    assert_eq!(e.draw(), Err(expected));
}

#[test]
fn the_first_overflow_in_paint_order_is_reported() {
    let mut e = engine();
    for _ in 0..40 {
        e.render_line(v3(0.0, 0.0, 0.0), v3(1.0, 1.0, 0.0), white());
        e.render_quad(v3(0.0, 0.0, 0.0), v3(1.0, 1.0, 1.0), s(0.0), white(), None);
    }
    let expected =
        FrameError::CapacityOverflow { kind: PrimitiveKind::Quad, submitted: 40, capacity: 39 };
    assert_eq!(e.flush_uploads(), Err(expected));
    assert_eq!(e.draw(), Err(expected));
}

#[test]
fn an_engine_needs_a_usable_alignment() {
    assert!(matches!(Engine::new(0), Err(SetupError::ZeroAlignment)));
    assert!(matches!(Engine::new(1 << 31), Err(SetupError::BufferTooLarge)));
    assert!(matches!(Engine::new(16384), Err(SetupError::BufferTooLarge)));
    assert!(Engine::new(8192).is_ok());
    assert!(Engine::new(1).is_ok());
    assert!(Engine::new(64).is_ok());
}

#[test]
fn the_slots_match_the_dynamic_offsets_in_count_and_order() {
    let mut e = engine();
    e.render_quad(v3(0.0, 0.0, 0.0), v3(1.0, 1.0, 1.0), s(0.0), white(), None);
    e.render_line(v3(0.0, 0.0, 0.0), v3(1.0, 1.0, 0.0), white());
    e.render_circle(v3(0.0, 0.0, 0.0), v3(1.0, 1.0, 0.0), s(1.0), s(0.0), white());
    let calls = e.draw().unwrap();
    let quad_slots = e.quad_pipeline().uniform_slots();
    let line_slots = e.line_pipeline().uniform_slots();
    let circle_slots = e.circle_pipeline().uniform_slots();
    assert_eq!(calls[0].dynamic_offsets().len(), quad_slots.len());
    assert_eq!(calls[1].dynamic_offsets().len(), line_slots.len());
    assert_eq!(calls[2].dynamic_offsets().len(), circle_slots.len());
    let quad_bindings: Vec<u32> = quad_slots.iter().map(|s| s.binding).collect();
    assert_eq!(quad_bindings, vec![0, 1]);
    let line_bindings: Vec<u32> = line_slots.iter().map(|s| s.binding).collect();
    assert_eq!(line_bindings, vec![0, 1, 2]);
    assert_eq!(circle_slots[0].binding, 0);
    assert_eq!((quad_slots[0].size, quad_slots[0].stride, quad_slots[0].buffer_size), (16, 256, 10240));
    assert_eq!((quad_slots[1].size, quad_slots[1].stride, quad_slots[1].buffer_size), (64, 256, 10240));
    assert_eq!(quad_slots[0].visibility, ShaderStages::Fragment);
    assert_eq!(quad_slots[1].visibility, ShaderStages::VertexFragment);
    assert_eq!(line_slots[2].size, 64);
    assert_eq!(line_slots[2].visibility, ShaderStages::VertexFragment);
    assert_eq!((circle_slots[0].size, circle_slots[0].min_binding_size), (88, 98));
    assert_eq!(circle_slots[0].stride, 256);
    assert_eq!(circle_slots[0].visibility, ShaderStages::VertexFragment);
    assert_eq!(e.line_pipeline().color_uniform_alignment(), 256);
    assert_eq!(e.line_pipeline().transform_uniform_alignment(), 256);
    assert_eq!(e.circle_pipeline().circle_uniform_alignment(), 256);
}

#[test]
fn the_last_circle_is_bound_inside_the_buffer() {
    for alignment in [1u32, 4, 16, 32, 64, 256] {
        let mut e = Engine::new(alignment).unwrap();
        let slot = e.circle_pipeline().uniform_slots()[0];
        assert!(slot.stride >= 88 && slot.stride < 88 + u64::from(alignment));
        assert_eq!(slot.stride % u64::from(alignment), 0);
        assert_eq!(slot.buffer_size, 300_000 * slot.stride);
        let capacity = e.circle_pipeline().capacity();
        assert_eq!(capacity, if slot.stride >= 98 { 299_999 } else { 299_998 });
        for _ in 0..capacity {
            e.render_circle(v3(0.0, 0.0, 0.0), v3(1.0, 1.0, 0.0), s(1.0), s(0.0), white());
        }
        let calls = e.render_circles().unwrap();
        let writes = e.update_circle_data().unwrap();
        let last = match calls[calls.len() - 1] {
            DrawCall::Circle { uniform_offset } => u64::from(uniform_offset),
            other => panic!("not a circle: {:?}", other),
        };
        assert_eq!(last, capacity * slot.stride);
        assert_eq!(writes[writes.len() - 1].offset, last);
        assert!(last + u64::from(slot.min_binding_size) <= slot.buffer_size);
        assert!(last + writes[writes.len() - 1].data.size() <= slot.buffer_size);
        assert!(last + slot.stride + u64::from(slot.min_binding_size) > slot.buffer_size);
        e.render_circle(v3(0.0, 0.0, 0.0), v3(1.0, 1.0, 0.0), s(1.0), s(0.0), white());
        let expected = FrameError::CapacityOverflow {
            kind: PrimitiveKind::Circle,
            submitted: capacity as usize + 1,
            capacity,
        };
        assert_eq!(e.render_circles(), Err(expected));
        assert_eq!(e.update_circle_data(), Err(expected));
    }
}

#[test]
fn every_quad_and_line_is_bound_inside_its_buffers() {
    let mut e = Engine::new(32).unwrap();
    for _ in 0..39 {
        e.render_quad(v3(0.0, 0.0, 0.0), v3(1.0, 1.0, 1.0), s(0.0), white(), None);
        e.render_line(v3(0.0, 0.0, 0.0), v3(1.0, 1.0, 0.0), white());
    }
    let quad_slots = e.quad_pipeline().uniform_slots();
    for call in e.render_quads().unwrap() {
        for (offset, slot) in call.dynamic_offsets().iter().zip(quad_slots.iter()) {
            assert!(u64::from(*offset) + u64::from(slot.min_binding_size) <= slot.buffer_size);
        }
    }
    let line_slots = e.line_pipeline().uniform_slots();
    for call in e.render_lines().unwrap() {
        for (offset, slot) in call.dynamic_offsets().iter().zip(line_slots.iter()) {
            assert!(u64::from(*offset) + u64::from(slot.min_binding_size) <= slot.buffer_size);
        }
    }
}
