use bm::context::first_srgb;
use bm::context::SurfaceSize;
use bm::engine::Engine;
use bm::gui::Gui;
use bm::layout::ShaderStages;
use bm::layout::SetupError;
use bm::layout::UniformSlot;
use bm::mesh::circle_indices;
use bm::mesh::circle_vertices;
use bm::mesh::line_vertices;
use bm::mesh::quad_vertices;
use bm::mesh::PositionVertex;
use bm::mesh::QuadVertex;
use bm::pipeline::BindGroupLayoutEntry;
use bm::pipeline::BindingType;
use bm::pipeline::BlendComponent;
use bm::pipeline::BlendFactor;
use bm::pipeline::BlendOperation;
use bm::pipeline::BlendState;
use bm::pipeline::ColorTargetState;
use bm::pipeline::ColorWrites;
use bm::pipeline::ComputePipelineBuilder;
use bm::pipeline::Face;
use bm::pipeline::FrontFace;
use bm::pipeline::PolygonMode;
use bm::pipeline::PrimitiveTopology;
use bm::pipeline::RenderPipelineBuilder;
use bm::pipeline::ShaderModuleDescriptor;
use bm::pipeline::VertexAttribute;
use bm::pipeline::VertexDescriptor;
use bm::pipeline::VertexFormat;
use bm::texture::TextureFormat;

fn bits(v: bm::geometry::Vec3) -> [f32; 3] {
    [f32::from_bits(v.x.to_bits()), f32::from_bits(v.y.to_bits()), f32::from_bits(v.z.to_bits())]
}

#[test]
fn a_slot_is_padded_to_the_alignment() {
    let slot = UniformSlot::new(1, ShaderStages::VertexFragment, 64, 64, 256, 40).unwrap();
    assert_eq!(slot.binding, 1);
    assert_eq!(slot.size, 64);
    assert_eq!(slot.min_binding_size, 64);
    assert_eq!(slot.stride, 256);
    assert_eq!(slot.buffer_size, 40 * 256);
    let slot = UniformSlot::new(0, ShaderStages::Fragment, 88, 98, 64, 10).unwrap();
    assert_eq!(slot.stride, 128);
    assert_eq!(slot.buffer_size, 1280);
    let slot = UniformSlot::new(0, ShaderStages::Vertex, 16, 16, 16, 0).unwrap();
    assert_eq!((slot.stride, slot.buffer_size), (16, 0));
}

#[test]
fn a_slot_needs_a_usable_alignment() {
    assert_eq!(
        UniformSlot::new(0, ShaderStages::Fragment, 16, 16, 0, 40),
        Err(SetupError::ZeroAlignment)
    );
    assert_eq!(
        UniformSlot::new(0, ShaderStages::Fragment, 16, 16, 1 << 31, 2),
        Err(SetupError::BufferTooLarge)
    );
    assert_eq!(
        UniformSlot::new(0, ShaderStages::Fragment, u32::MAX, 16, u32::MAX - 1, u32::MAX),
        Err(SetupError::BufferTooLarge)
    );
    assert!(UniformSlot::new(0, ShaderStages::Fragment, 16, 16, 1 << 31, 1).is_ok());
}

#[test]
fn the_quad_mesh_is_two_triangles_from_the_top_right() {
    let mesh = quad_vertices();
    let positions: Vec<[f32; 3]> = mesh.iter().map(|v| bits(v.position)).collect();
    assert_eq!(
        positions,
        vec![
            [0.5, 0.5, 0.0],
            [-0.5, 0.5, 0.0],
            [-0.5, -0.5, 0.0],
            [-0.5, -0.5, 0.0],
            [0.5, -0.5, 0.0],
            [0.5, 0.5, 0.0],
        ]
    );
    let uvs: Vec<[f32; 2]> = mesh
        .iter()
        .map(|v| [f32::from_bits(v.tex_coords.x.to_bits()), f32::from_bits(v.tex_coords.y.to_bits())])
        .collect();
    assert_eq!(
        uvs,
        vec![[1.0, 0.0], [0.0, 0.0], [0.0, 1.0], [0.0, 1.0], [1.0, 1.0], [1.0, 0.0]]
    );
}

#[test]
fn the_line_and_circle_meshes() {
    let line: Vec<[f32; 3]> = line_vertices().iter().map(|v| bits(v.position)).collect();
    assert_eq!(line, vec![[0.0, 0.0, 0.0], [0.0, 0.0, 0.0]]);
    let circle: Vec<[f32; 3]> = circle_vertices().iter().map(|v| bits(v.position)).collect();
    assert_eq!(
        circle,
        vec![[0.5, 0.5, 0.0], [-0.5, 0.5, 0.0], [-0.5, -0.5, 0.0], [0.5, -0.5, 0.0]]
    );
    assert_eq!(circle_indices(), vec![0, 1, 2, 2, 3, 0]);
}

#[test]
fn vertices_describe_their_buffers() {
    let quad = QuadVertex::desc();
    assert_eq!(quad.array_stride, 20);
    assert_eq!(
        quad.attributes,
        vec![
            VertexAttribute { offset: 0, shader_location: 0, format: VertexFormat::Float32x3 },
            VertexAttribute { offset: 12, shader_location: 1, format: VertexFormat::Float32x2 },
        ]
    );
    let position = PositionVertex::desc();
    assert_eq!(position.array_stride, 12);
    assert_eq!(
        position.attributes,
        vec![VertexAttribute { offset: 0, shader_location: 0, format: VertexFormat::Float32x3 }]
    );
}

#[test]
fn the_quad_pipeline_blends_textured_triangles() {
    let e = Engine::new(256).unwrap();
    let d = e.quad_pipeline().render_pipeline(TextureFormat::Bgra8UnormSrgb, "// quad shader");
    assert_eq!(d.label, Some("Quad - Render Pipeline"));
    assert_eq!(d.shader.label, Some("Builtin Quad Shader"));
    assert_eq!(d.shader.source, "// quad shader");
    assert_eq!(d.vs_entry_point, "vs_main");
    assert_eq!(d.fs_entry_point, "fs_main");
    assert_eq!(d.primitive.topology, PrimitiveTopology::TriangleList);
    assert_eq!(d.primitive.front_face, FrontFace::Ccw);
    assert_eq!(d.primitive.cull_mode, Some(Face::Back));
    assert_eq!(d.primitive.polygon_mode, PolygonMode::Fill);
    assert_eq!(d.multisample.count, 1);
    assert_eq!(d.multisample.mask, u64::MAX);
    assert!(!d.multisample.alpha_to_coverage_enabled);
    assert_eq!(
        d.targets,
        vec![Some(ColorTargetState {
            format: TextureFormat::Bgra8UnormSrgb,
            blend: Some(BlendState {
                color: BlendComponent {
                    src_factor: BlendFactor::SrcAlpha,
                    dst_factor: BlendFactor::OneMinusSrcAlpha,
                    operation: BlendOperation::Add,
                },
                alpha: BlendComponent {
                    src_factor: BlendFactor::One,
                    dst_factor: BlendFactor::Zero,
                    operation: BlendOperation::Add,
                },
            }),
            write_mask: ColorWrites { red: true, green: true, blue: true, alpha: true },
        })]
    );
    assert_eq!(d.buffers.len(), 1);
    assert_eq!(d.buffers[0].array_stride, 20);
    assert_eq!(d.layout.label, Some("Vertex layout descriptor"));
    assert!(d.layout.push_constant_ranges.is_empty());
    assert_eq!(d.layout.bind_group_layouts.len(), 2);
    assert_eq!(
        d.layout.bind_group_layouts[0].entries,
        vec![
            BindGroupLayoutEntry {
                binding: 0,
                visibility: ShaderStages::Fragment,
                ty: BindingType::Texture,
            },
            BindGroupLayoutEntry {
                binding: 1,
                visibility: ShaderStages::Fragment,
                ty: BindingType::Sampler,
            },
        ]
    );
    assert_eq!(
        d.layout.bind_group_layouts[1].entries,
        vec![
            BindGroupLayoutEntry {
                binding: 0,
                visibility: ShaderStages::Fragment,
                ty: BindingType::UniformBuffer { has_dynamic_offset: true, min_binding_size: 16 },
            },
            BindGroupLayoutEntry {
                binding: 1,
                visibility: ShaderStages::VertexFragment,
                ty: BindingType::UniformBuffer { has_dynamic_offset: true, min_binding_size: 64 },
            },
        ]
    );
}

#[test]
fn the_line_pipeline_replaces_with_a_line_list() {
    let e = Engine::new(256).unwrap();
    let d = e.line_pipeline().render_pipeline(TextureFormat::Rgba8UnormSrgb, "// line shader");
    assert_eq!(d.label, Some("Line Vertex Pipeline"));
    assert_eq!(d.shader.label, Some("Builtin Line Shader"));
    assert_eq!(d.layout.label, Some("Line Vertex Layout Descriptor"));
    assert_eq!(d.primitive.topology, PrimitiveTopology::LineList);
    assert_eq!(d.primitive.polygon_mode, PolygonMode::Fill);
    let target = d.targets[0].unwrap();
    assert_eq!(target.format, TextureFormat::Rgba8UnormSrgb);
    assert_eq!(target.blend.unwrap().color, BlendComponent::replace());
    assert_eq!(target.blend.unwrap().alpha, BlendComponent::replace());
    assert_eq!(target.write_mask, ColorWrites::all());
    assert_eq!(d.buffers[0].array_stride, 12);
    assert_eq!(d.layout.bind_group_layouts.len(), 1);
    assert_eq!(d.layout.bind_group_layouts[0].label, Some("line_bind_group_layout"));
    let bindings: Vec<u32> =
        d.layout.bind_group_layouts[0].entries.iter().map(|entry| entry.binding).collect();
    assert_eq!(bindings, vec![0, 1, 2]);
    assert_eq!(
        d.layout.bind_group_layouts[0].entries[2],
        BindGroupLayoutEntry {
            binding: 2,
            visibility: ShaderStages::VertexFragment,
            ty: BindingType::UniformBuffer { has_dynamic_offset: true, min_binding_size: 64 },
        }
    );
}

#[test]
fn the_circle_pipeline_has_one_combined_binding() {
    let e = Engine::new(256).unwrap();
    let d = e.circle_pipeline().render_pipeline(TextureFormat::Bgra8UnormSrgb, "// circle shader");
    assert_eq!(d.label, Some("Circle - Render Pipeline"));
    assert_eq!(d.shader.label, Some("Circle - Builtin Shader"));
    assert_eq!(d.layout.label, Some("Circle - Vertex layout descriptor"));
    assert_eq!(d.primitive.topology, PrimitiveTopology::TriangleList);
    assert_eq!(d.targets[0].unwrap().blend.unwrap().color, BlendComponent::alpha_over());
    assert_eq!(d.layout.bind_group_layouts.len(), 1);
    assert_eq!(d.layout.bind_group_layouts[0].label, None);
    assert_eq!(
        d.layout.bind_group_layouts[0].entries,
        vec![BindGroupLayoutEntry {
            binding: 0,
            visibility: ShaderStages::VertexFragment,
            ty: BindingType::UniformBuffer { has_dynamic_offset: true, min_binding_size: 98 },
        }]
    );
}

#[test]
fn a_builder_collects_the_parts_of_a_pipeline() {
    let module = ShaderModuleDescriptor { label: Some("module"), source: "// wgsl" };
    let d = RenderPipelineBuilder::new()
        .with_wireframe()
        .with_topology(PrimitiveTopology::TriangleStrip)
        .add_vertex_buffer_layout::<QuadVertex>()
        .add_vertex_buffer_layout::<PositionVertex>()
        .add_color_target_state(ColorTargetState {
            format: TextureFormat::Rgba8Unorm,
            blend: None,
            write_mask: ColorWrites::all(),
        })
        .shader(module)
        .pipeline_layout_descriptor("layout", Vec::new(), Vec::new())
        .build("pipeline", "vertex", "fragment");
    assert_eq!(d.label, Some("pipeline"));
    assert_eq!(d.vs_entry_point, "vertex");
    assert_eq!(d.fs_entry_point, "fragment");
    assert_eq!(d.shader.label, Some("module"));
    assert_eq!(d.primitive.polygon_mode, PolygonMode::Line);
    assert_eq!(d.primitive.topology, PrimitiveTopology::TriangleStrip);
    assert!(!d.primitive.unclipped_depth);
    assert!(!d.primitive.conservative);
    let strides: Vec<u64> = d.buffers.iter().map(|b| b.array_stride).collect();
    assert_eq!(strides, vec![20, 12]);
    assert_eq!(d.targets.len(), 1);
    assert_eq!(d.targets[0].unwrap().blend, None);
    assert_eq!(d.layout.label, Some("layout"));
    assert!(d.layout.bind_group_layouts.is_empty());
}

#[test]
fn a_new_builder_fills_triangle_lists() {
    let b = RenderPipelineBuilder::new();
    assert!(b.shader_module_descriptor.is_none());
    assert!(b.pipeline_layout_descriptor.is_none());
    assert!(!b.wireframe);
    assert_eq!(b.topology, PrimitiveTopology::TriangleList);
    assert!(b.vertex_buffer_layouts.is_empty());
    assert!(b.color_target_states.is_empty());
    let c = b.clone().with_wireframe();
    assert!(c.wireframe);
    assert!(!b.wireframe);
}

#[test]
fn a_compute_builder_collects_shader_and_layout() {
    let b = ComputePipelineBuilder::new();
    assert!(b.shader_module_descriptor.is_none());
    assert!(b.pipeline_layout_descriptor.is_none());
    let d = b
        .shader(ShaderModuleDescriptor { label: None, source: "// compute" })
        .pipeline_layout_descriptor("compute layout", Vec::new(), Vec::new())
        .build("compute pipeline", "main");
    assert_eq!(d.label, Some("compute pipeline"));
    assert_eq!(d.entry_point, "main");
    assert_eq!(d.shader.source, "// compute");
    assert_eq!(d.layout.label, Some("compute layout"));
}

#[test]
fn the_overlay_window_starts_closed() {
    let mut gui = Gui::new();
    assert!(!gui.window_open());
    gui.open_window();
    assert!(gui.window_open());
    gui.set_window_open(false);
    assert!(!gui.window_open());
    gui.set_window_open(true);
    assert!(gui.window_open());
}

#[test]
fn a_surface_keeps_its_size_when_a_side_would_vanish() {
    let mut size = SurfaceSize { width: 800, height: 600 };
    assert!(size.resize(SurfaceSize { width: 1024, height: 768 }));
    assert_eq!(size, SurfaceSize { width: 1024, height: 768 });
    assert!(!size.resize(SurfaceSize { width: 0, height: 768 }));
    assert_eq!(size, SurfaceSize { width: 1024, height: 768 });
    assert!(!size.resize(SurfaceSize { width: 640, height: 0 }));
    assert!(!size.resize(SurfaceSize { width: 0, height: 0 }));
    assert_eq!(size, SurfaceSize { width: 1024, height: 768 });
    assert!(size.resize(SurfaceSize { width: 1, height: 1 }));
    assert_eq!(size, SurfaceSize { width: 1, height: 1 });
    assert!(size.is_presentable());
    assert!(!SurfaceSize { width: 0, height: 1 }.is_presentable());
}

#[test]
fn the_first_srgb_format_is_chosen() {
    assert_eq!(first_srgb(&[false, true, true]), Some(1));
    assert_eq!(first_srgb(&[true]), Some(0));
    assert_eq!(first_srgb(&[false, false]), None);
    assert_eq!(first_srgb(&[]), None);
}

#[test]
fn the_pipelines_hand_out_their_meshes() {
    let e = Engine::new(256).unwrap();
    let quad = e.quad_pipeline().vertices();
    assert_eq!(quad, quad_vertices());
    assert_eq!(quad.len(), 6);
    assert_eq!(bits(quad[0].position), [0.5, 0.5, 0.0]);
    assert_eq!(bits(quad[2].position), [-0.5, -0.5, 0.0]);
    assert_eq!(f32::from_bits(quad[4].tex_coords.x.to_bits()), 1.0);
    assert_eq!(f32::from_bits(quad[4].tex_coords.y.to_bits()), 1.0);
    assert_eq!(e.line_pipeline().vertices(), line_vertices());
    assert_eq!(e.line_pipeline().vertices().len(), 2);
    assert_eq!(e.circle_pipeline().vertices(), circle_vertices());
    assert_eq!(e.circle_pipeline().vertices().len(), 4);
    assert_eq!(e.circle_pipeline().indices(), vec![0, 1, 2, 2, 3, 0]);
}

#[test]
fn a_stride_is_padded_from_the_payload_alone() {
    let slot = UniformSlot::new(0, ShaderStages::VertexFragment, 88, 98, 32, 300_000).unwrap();
    assert_eq!(slot.stride, 96);
    assert_eq!(slot.buffer_size, 300_000 * 96);
    assert_eq!(slot.min_binding_size, 98);
    let slot = UniformSlot::new(0, ShaderStages::VertexFragment, 88, 98, 8, 10).unwrap();
    assert_eq!(slot.stride, 88);
    let slot = UniformSlot::new(0, ShaderStages::VertexFragment, 88, 98, 1, 10).unwrap();
    assert_eq!(slot.stride, 88);
    let slot = UniformSlot::new(0, ShaderStages::VertexFragment, 88, 98, 256, 10).unwrap();
    assert_eq!(slot.stride, 256);
    let slot = UniformSlot::new(0, ShaderStages::VertexFragment, 16, 16, 32, 10).unwrap();
    assert_eq!(slot.stride, 32);
    for alignment in 1u32..=300 {
        let slot =
            UniformSlot::new(0, ShaderStages::VertexFragment, 88, 98, alignment, 10).unwrap();
        assert_eq!(slot.stride % u64::from(alignment), 0);
        assert!(slot.stride >= 88);
        assert!(slot.stride < 88 + u64::from(alignment));
    }
}

#[test]
fn the_circle_stride_at_an_alignment_of_32_is_96() {
    let e = Engine::new(32).unwrap();
    assert_eq!(e.circle_pipeline().circle_uniform_alignment(), 96);
    assert_eq!(e.circle_pipeline().capacity(), 299_998);
    let e = Engine::new(256).unwrap();
    assert_eq!(e.circle_pipeline().circle_uniform_alignment(), 256);
    assert_eq!(e.circle_pipeline().capacity(), 299_999);
    let e = Engine::new(1).unwrap();
    assert_eq!(e.circle_pipeline().circle_uniform_alignment(), 88);
    assert_eq!(e.circle_pipeline().capacity(), 299_998);
    let e = Engine::new(98).unwrap();
    assert_eq!(e.circle_pipeline().circle_uniform_alignment(), 98);
    assert_eq!(e.circle_pipeline().capacity(), 299_999);
}
