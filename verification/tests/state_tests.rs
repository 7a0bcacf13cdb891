use scene_core::controller::KeyCode;
use scene_core::gpu::{
    AlphaMode, BindingType, BlendComponent, CompareFunction, CullMode, FrontFace, PresentMode,
    PrimitiveTopology, TextureFormat, VertexFormat, VertexStepMode,
};
use scene_core::layout::{
    create_camera_bind_group_layout, create_light_bind_group_layout,
    create_texture_bind_group_layout, instance_raw_layout, model_vertex_layout,
};
use scene_core::model::ModelDesc;
use scene_core::pipeline::create_light_render_pipeline;
use scene_core::state::{BufferWrite, State, WindowAction, WindowEvent};
use scene_core::surface::{
    create_depth_texture, create_surface_config, create_surface_format, SurfaceCaps,
};

fn test_caps() -> SurfaceCaps {
    SurfaceCaps {
        formats: vec![TextureFormat::Bgra8Unorm, TextureFormat::Bgra8UnormSrgb],
        present_modes: vec![PresentMode::Fifo, PresentMode::Mailbox],
        alpha_modes: vec![AlphaMode::Opaque],
    }
}

fn test_state() -> State {
    State::new(800, 600, &test_caps(), ModelDesc::new())
}

#[test]
fn surface_format_prefers_first_srgb() {
    let f = create_surface_format(&vec![
        TextureFormat::Bgra8Unorm,
        TextureFormat::Rgba8UnormSrgb,
        TextureFormat::Bgra8UnormSrgb,
    ]);
    assert_eq!(f, TextureFormat::Rgba8UnormSrgb);
}

#[test]
fn surface_format_falls_back_to_first_offered() {
    let f = create_surface_format(&vec![TextureFormat::Rgba8Unorm, TextureFormat::Bgra8Unorm]);
    assert_eq!(f, TextureFormat::Rgba8Unorm);
}

#[test]
fn surface_config_takes_size_and_first_modes() {
    let caps = test_caps();
    let c = create_surface_config(1024, 768, &caps);
    assert_eq!(c.format, TextureFormat::Bgra8UnormSrgb);
    assert_eq!(c.width, 1024);
    assert_eq!(c.height, 768);
    assert_eq!(c.present_mode, PresentMode::Fifo);
    assert_eq!(c.alpha_mode, AlphaMode::Opaque);
    let d = create_depth_texture(&c);
    assert_eq!((d.width, d.height), (1024, 768));
    assert_eq!(d.format, TextureFormat::Depth32Float);
}

#[test]
fn bind_group_layouts_pin_their_slots() {
    let t = create_texture_bind_group_layout();
    assert_eq!(t.entries.len(), 4);
    assert_eq!(t.entries[0].binding, 0);
    assert_eq!(t.entries[0].ty, BindingType::Texture2D);
    assert!(!t.entries[0].visibility.vertex && t.entries[0].visibility.fragment);
    assert_eq!(t.entries[1].ty, BindingType::SamplerFiltering);
    assert_eq!(t.entries[2].ty, BindingType::Texture2D);
    assert_eq!(t.entries[3].ty, BindingType::SamplerFiltering);

    for l in [create_camera_bind_group_layout(), create_light_bind_group_layout()] {
        assert_eq!(l.entries.len(), 1);
        assert_eq!(l.entries[0].binding, 0);
        assert_eq!(l.entries[0].ty, BindingType::UniformBuffer);
        assert!(l.entries[0].visibility.vertex && l.entries[0].visibility.fragment);
    }
}

#[test]
fn vertex_layouts_pin_offsets_and_slots() {
    let v = model_vertex_layout();
    assert_eq!(v.array_stride, 32);
    assert_eq!(v.step_mode, VertexStepMode::Vertex);
    let shapes: Vec<(u64, u32, VertexFormat)> =
        v.attributes.iter().map(|a| (a.offset, a.shader_location, a.format)).collect();
    assert_eq!(
        shapes,
        vec![
            (0, 0, VertexFormat::Float32x3),
            (12, 1, VertexFormat::Float32x2),
            (20, 2, VertexFormat::Float32x3),
        ]
    );

    let i = instance_raw_layout();
    assert_eq!(i.array_stride, 64);
    assert_eq!(i.step_mode, VertexStepMode::Instance);
    let shapes: Vec<(u64, u32, VertexFormat)> =
        i.attributes.iter().map(|a| (a.offset, a.shader_location, a.format)).collect();
    assert_eq!(
        shapes,
        vec![
            (0, 5, VertexFormat::Float32x4),
            (16, 6, VertexFormat::Float32x4),
            (32, 7, VertexFormat::Float32x4),
            (48, 8, VertexFormat::Float32x4),
        ]
    );
}

#[test]
fn light_pipeline_shares_the_fixed_state() {
    let p = create_light_render_pipeline(TextureFormat::Bgra8UnormSrgb, TextureFormat::Depth32Float);
    assert_eq!(p.layout.bind_group_layouts.len(), 2);
    assert_eq!(p.color_format, TextureFormat::Bgra8UnormSrgb);
    assert_eq!(p.blend_color, BlendComponent::Replace);
    assert_eq!(p.blend_alpha, BlendComponent::Replace);
    assert!(p.write_mask_all);
    assert_eq!(p.topology, PrimitiveTopology::TriangleList);
    assert_eq!(p.front_face, FrontFace::Ccw);
    assert_eq!(p.cull_mode, CullMode::Back);
    assert_eq!(p.sample_count, 1);
    assert!(!p.alpha_to_coverage_enabled);
    let ds = p.depth_stencil.unwrap();
    assert_eq!(ds.format, TextureFormat::Depth32Float);
    assert!(ds.depth_write_enabled);
    assert_eq!(ds.depth_compare, CompareFunction::Less);
    assert_eq!(p.vertex_layouts.len(), 1);
    assert_eq!(p.vertex_layouts[0].array_stride, 32);
}

#[test]
fn new_state_wires_the_whole_scene() {
    let s = test_state();
    assert_eq!(s.config.format, TextureFormat::Bgra8UnormSrgb);
    assert_eq!((s.config.width, s.config.height), (800, 600));
    assert_eq!((s.size_w, s.size_h), (800, 600));
    assert_eq!((s.depth_texture.width, s.depth_texture.height), (800, 600));
    assert_eq!(s.depth_texture.format, TextureFormat::Depth32Float);
    assert_eq!(s.instances.len(), 9);
    assert_eq!(s.camera_controller.speed, 600);
    assert_eq!(s.light_uniform.angle_deg, 0);
    assert_eq!(s.bg_color.r, 5);
    assert_eq!(s.render_pipeline.layout.bind_group_layouts.len(), 3);
    assert_eq!(s.render_pipeline.vertex_layouts.len(), 2);
    assert_eq!(s.light_render_pipeline.layout.bind_group_layouts.len(), 2);
}

#[test]
fn degenerate_resize_changes_nothing() {
    let mut s = test_state();
    s.resize(0, 1080);
    assert_eq!((s.config.width, s.config.height), (800, 600));
    assert_eq!((s.size_w, s.size_h), (800, 600));
    assert_eq!((s.depth_texture.width, s.depth_texture.height), (800, 600));
    s.resize(1920, 0);
    assert_eq!((s.config.width, s.config.height), (800, 600));
    assert_eq!((s.depth_texture.width, s.depth_texture.height), (800, 600));
    s.resize(0, 0);
    assert_eq!((s.config.width, s.config.height), (800, 600));
    assert_eq!((s.depth_texture.width, s.depth_texture.height), (800, 600));
}

#[test]
fn positive_resize_updates_surface_and_depth_exactly() {
    let mut s = test_state();
    let format_before = s.config.format;
    s.resize(1920, 1080);
    assert_eq!((s.config.width, s.config.height), (1920, 1080));
    assert_eq!((s.size_w, s.size_h), (1920, 1080));
    assert_eq!((s.depth_texture.width, s.depth_texture.height), (1920, 1080));
    assert_eq!(s.depth_texture.format, TextureFormat::Depth32Float);
    assert_eq!(s.config.format, format_before);
}

#[test]
fn input_latches_and_reports_movement_keys_handled() {
    let mut s = test_state();
    assert!(s.input(KeyCode::W, true));
    assert!(s.camera_controller.forward_pressed);
    assert!(s.input(KeyCode::A, true));
    assert!(s.input(KeyCode::S, true));
    assert!(s.input(KeyCode::D, true));
    assert!(s.input(KeyCode::LShift, true));
    assert!(s.input(KeyCode::Space, true));
    assert!(s.camera_controller.up_pressed);
    // A release of a recognized key is handled too, and clears its latch.
    assert!(s.input(KeyCode::Space, false));
    assert!(!s.camera_controller.up_pressed);
    // Unrecognized keys are not handled.
    assert!(!s.input(KeyCode::Escape, true));
    assert!(!s.input(KeyCode::Other, true));
}

#[test]
fn update_advances_light_and_writes_both_uniforms() {
    let mut s = test_state();
    let writes = s.update();
    assert_eq!(writes, vec![BufferWrite::CameraUniform, BufferWrite::LightUniform]);
    assert_eq!(s.light_uniform.angle_deg, 1);
    let writes = s.update();
    assert_eq!(writes.len(), 2);
    assert_eq!(s.light_uniform.angle_deg, 2);
}

#[test]
fn render_covers_all_instances() {
    let mut model = ModelDesc::new();
    model.push_mesh("cube", 36, None);
    let s = State::new(640, 480, &test_caps(), model);
    let (_, cmds) = s.render();
    let mut found_instanced_draw = false;
    for c in &cmds {
        if let scene_core::frame::RenderCommand::DrawIndexed { instance_start, instance_end, .. } = c {
            if *instance_end == 9 {
                assert_eq!(*instance_start, 0);
                found_instanced_draw = true;
            }
        }
    }
    assert!(found_instanced_draw);
}

#[test]
fn window_events_decide_the_loop() {
    let mut s = test_state();
    assert_eq!(s.handle_window_event(WindowEvent::CloseRequested), WindowAction::Exit);
    assert_eq!(
        s.handle_window_event(WindowEvent::Keyboard { key: KeyCode::Escape, pressed: true }),
        WindowAction::Exit
    );
    assert_eq!(
        s.handle_window_event(WindowEvent::Keyboard { key: KeyCode::Escape, pressed: false }),
        WindowAction::Nothing
    );
    assert_eq!(
        s.handle_window_event(WindowEvent::Keyboard { key: KeyCode::W, pressed: true }),
        WindowAction::Nothing
    );
    assert!(s.camera_controller.forward_pressed);
    assert_eq!(
        s.handle_window_event(WindowEvent::Keyboard { key: KeyCode::Space, pressed: true }),
        WindowAction::Nothing
    );
    assert_eq!(
        s.handle_window_event(WindowEvent::Resized { width: 1024, height: 768 }),
        WindowAction::Resize { width: 1024, height: 768 }
    );
    assert_eq!((s.config.width, s.config.height), (1024, 768));
    assert_eq!(
        s.handle_window_event(WindowEvent::ScaleFactorChanged { width: 0, height: 768 }),
        WindowAction::Resize { width: 0, height: 768 }
    );
    assert_eq!((s.config.width, s.config.height), (1024, 768));
    assert_eq!(s.handle_window_event(WindowEvent::Other), WindowAction::Nothing);
}
