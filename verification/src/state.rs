//! The scene's top-level state and its frame-to-frame orchestration.
//!
//! The state gathers everything the renderer decides: the surface
//! configuration and the depth texture that must match it, the instance
//! grid, the light, the controller's latches, the loaded model and the
//! two pipelines. Each frame the embedding feeds events in, asks for the
//! update's buffer writes, and replays the render commands; every one of
//! those decisions is pinned here. The floating-point camera arithmetic
//! itself — moving the eye, evaluating the matrices — happens in the
//! embedding, against the camera this library describes and validates.

use vstd::prelude::*;
use crate::controller::{is_movement_key, latched, CameraController, KeyCode};
use crate::frame::{
    background_color, build_frame, frame_cmds, Color, RenderCommand, RenderPassDesc,
};
use crate::instance::{instance_at, make_instances, InstanceDesc, RotationPolicy};
use crate::layout::{
    create_camera_bind_group_layout, create_light_bind_group_layout,
    create_texture_bind_group_layout, instance_raw_layout, is_instance_raw_layout,
    is_material_texture_layout, is_model_vertex_layout, is_single_uniform_layout,
    model_vertex_layout, VertexBufferLayoutDesc,
};
use crate::light::{create_light_uniform, update_light, LightUniform, LIGHT_STEP_DEG};
use crate::model::ModelDesc;
use crate::pipeline::{
    create_light_render_pipeline, create_render_pipeline, create_render_pipeline_layout,
    fixed_pipeline_state, DepthStencilDesc, PipelineConfig, RenderPipelineDesc, ShaderKind,
};
use crate::surface::{
    create_depth_texture, create_surface_config, depth_format, preferred_format, DepthTextureDesc,
    SurfaceCaps, SurfaceConfig,
};
use crate::gpu::CompareFunction;

verus! {

/// Instances per grid row and column.
pub const NUM_INSTANCES_PER_ROW: u32 = 3;

/// Spacing between neighbouring instances, in thousandths of a unit.
pub const SPACE_BETWEEN: i64 = 2 * crate::UNIT;

/// The controller's speed, in thousandths of a unit per frame.
pub const CAMERA_SPEED: i64 = 600;

/// A window event, decoded to what the scene reacts to.
#[derive(Clone, Copy, Debug, PartialEq, Eq, Structural)]
pub enum WindowEvent {
    CloseRequested,
    Keyboard { key: KeyCode, pressed: bool },
    Resized { width: u32, height: u32 },
    ScaleFactorChanged { width: u32, height: u32 },
    Other,
}

/// What the outer event loop must do after the scene has seen an event.
#[derive(Clone, Copy, Debug, PartialEq, Eq, Structural)]
pub enum WindowAction {
    /// Leave the event loop.
    Exit,
    /// Reconfigure the surface and depth texture to this size.
    Resize { width: u32, height: u32 },
    /// Nothing beyond what the scene already recorded.
    Nothing,
}

/// The GPU buffers the update phase rewrites, in order.
#[derive(Clone, Copy, Debug, PartialEq, Eq, Structural)]
pub enum BufferWrite {
    CameraUniform,
    LightUniform,
}

/// The renderer's whole mutable state, one value per owned resource
/// description.
#[derive(Debug)]
pub struct State {
    pub config: SurfaceConfig,
    pub size_w: u32,
    pub size_h: u32,
    pub bg_color: Color,
    pub camera_controller: CameraController,
    pub light_uniform: LightUniform,
    pub instances: Vec<InstanceDesc>,
    pub depth_texture: DepthTextureDesc,
    pub obj_model: ModelDesc,
    pub render_pipeline: RenderPipelineDesc,
    pub light_render_pipeline: RenderPipelineDesc,
}

impl State {
    /// The state's standing invariant: the surface has area, the
    /// remembered window size and the depth texture track the surface
    /// exactly, the light block is sound, the model's material indices
    /// are valid, the instance count fits a draw call, and each
    /// pipeline carries its own shader and the fixed state.
    pub open spec fn wf(self) -> bool {
        &&& self.config.wf()
        &&& self.size_w == self.config.width
        &&& self.size_h == self.config.height
        &&& self.depth_texture.width == self.config.width
        &&& self.depth_texture.height == self.config.height
        &&& self.depth_texture.format == depth_format()
        &&& self.light_uniform.wf()
        &&& self.obj_model.wf()
        &&& self.instances.len() <= 0xffff_ffff
        &&& self.render_pipeline.shader is Main
        &&& fixed_pipeline_state(self.render_pipeline)
        &&& self.light_render_pipeline.shader is Light
        &&& fixed_pipeline_state(self.light_render_pipeline)
    }

    /// Assembles the scene for a window of the given pixel size and an
    /// already loaded model: surface configuration, depth texture,
    /// controller, light, the centered instance grid, and the two
    /// pipelines with their bind groups and vertex layouts.
    pub fn new(width: u32, height: u32, caps: &SurfaceCaps, obj_model: ModelDesc) -> (s: State)
        requires
            width > 0,
            height > 0,
            caps.wf(),
            obj_model.wf(),
        ensures
            s.config.format == preferred_format(caps.formats@),
            s.config.width == width && s.config.height == height,
            s.config.present_mode == caps.present_modes[0],
            s.config.alpha_mode == caps.alpha_modes[0],
            s.size_w == width && s.size_h == height,
            s.bg_color == background_color(),
            s.camera_controller.speed == CAMERA_SPEED,
            !s.camera_controller.forward_pressed && !s.camera_controller.backward_pressed,
            !s.camera_controller.left_pressed && !s.camera_controller.right_pressed,
            !s.camera_controller.up_pressed && !s.camera_controller.down_pressed,
            s.light_uniform == crate::light::initial_light(),
            s.instances.len() == NUM_INSTANCES_PER_ROW * NUM_INSTANCES_PER_ROW,
            forall|idx: int|
                0 <= idx < s.instances.len() ==> s.instances[idx] == instance_at(
                    NUM_INSTANCES_PER_ROW,
                    SPACE_BETWEEN,
                    RotationPolicy::Grid,
                    idx,
                ),
            s.depth_texture.width == width && s.depth_texture.height == height,
            s.obj_model == obj_model,
            s.render_pipeline.layout.bind_group_layouts.len() == 3,
            is_material_texture_layout(s.render_pipeline.layout.bind_group_layouts[0]),
            is_single_uniform_layout(s.render_pipeline.layout.bind_group_layouts[1]),
            is_single_uniform_layout(s.render_pipeline.layout.bind_group_layouts[2]),
            s.render_pipeline.color_format == s.config.format,
            s.render_pipeline.vertex_layouts.len() == 2,
            is_model_vertex_layout(s.render_pipeline.vertex_layouts[0]),
            is_instance_raw_layout(s.render_pipeline.vertex_layouts[1]),
            s.render_pipeline.depth_stencil == Some(DepthStencilDesc {
                format: depth_format(),
                depth_write_enabled: true,
                depth_compare: CompareFunction::Less,
            }),
            s.light_render_pipeline.layout.bind_group_layouts.len() == 2,
            is_single_uniform_layout(s.light_render_pipeline.layout.bind_group_layouts[0]),
            is_single_uniform_layout(s.light_render_pipeline.layout.bind_group_layouts[1]),
            s.light_render_pipeline.color_format == s.config.format,
            s.light_render_pipeline.vertex_layouts.len() == 1,
            is_model_vertex_layout(s.light_render_pipeline.vertex_layouts[0]),
            s.light_render_pipeline.depth_stencil == s.render_pipeline.depth_stencil,
            s.wf(),
    {
        let config = create_surface_config(width, height, caps);
        let camera_controller = CameraController::new(CAMERA_SPEED);
        let instances = make_instances(NUM_INSTANCES_PER_ROW, SPACE_BETWEEN, RotationPolicy::Grid);
        let light_uniform = create_light_uniform();
        let depth_texture = create_depth_texture(&config);
        let bg_color = Color { r: 5, g: 5, b: 5, a: 1000 };

        let texture_layout = create_texture_bind_group_layout();
        let camera_layout = create_camera_bind_group_layout();
        let light_layout = create_light_bind_group_layout();
        let light_render_pipeline = create_light_render_pipeline(config.format, depth_texture.format);
        let pipeline_layout = create_render_pipeline_layout(texture_layout, camera_layout, light_layout);
        let mut vertex_layouts: Vec<VertexBufferLayoutDesc> = Vec::new();
        vertex_layouts.push(model_vertex_layout());
        vertex_layouts.push(instance_raw_layout());
        let render_pipeline = create_render_pipeline(
            pipeline_layout,
            PipelineConfig {
                shader: ShaderKind::Main,
                color_format: config.format,
                depth_format: Some(depth_texture.format),
                vertex_layouts,
            },
        );

        State {
            config,
            size_w: width,
            size_h: height,
            bg_color,
            camera_controller,
            light_uniform,
            instances,
            depth_texture,
            obj_model,
            render_pipeline,
            light_render_pipeline,
        }
    }

    /// Applies a new surface size. A size with area reconfigures the
    /// surface and rebuilds the depth texture to match it exactly;
    /// a degenerate size — zero wide or zero tall — changes nothing
    /// at all.
    pub fn resize(&mut self, width: u32, height: u32)
        requires
            old(self).wf(),
        ensures
            width == 0 || height == 0 ==> *final(self) == *old(self),
            width > 0 && height > 0 ==> {
                &&& final(self).config == (SurfaceConfig { width, height, ..old(self).config })
                &&& final(self).size_w == width && final(self).size_h == height
                &&& final(self).depth_texture == (DepthTextureDesc {
                    width,
                    height,
                    format: depth_format(),
                })
                &&& final(self).bg_color == old(self).bg_color
                &&& final(self).camera_controller == old(self).camera_controller
                &&& final(self).light_uniform == old(self).light_uniform
                &&& final(self).instances@ == old(self).instances@
                &&& final(self).obj_model == old(self).obj_model
                &&& final(self).render_pipeline == old(self).render_pipeline
                &&& final(self).light_render_pipeline == old(self).light_render_pipeline
            },
            final(self).wf(),
    {
        if width > 0 && height > 0 {
            self.size_w = width;
            self.size_h = height;
            self.config.width = width;
            self.config.height = height;
            self.depth_texture = create_depth_texture(&self.config);
        }
    }

    /// Feeds one keyboard event in: the controller latches its movement
    /// keys, and exactly those recognized keys are reported handled.
    pub fn input(&mut self, key: KeyCode, pressed: bool) -> (handled: bool)
        requires
            old(self).wf(),
        ensures
            final(self).camera_controller == latched(old(self).camera_controller, key, pressed),
            *final(self) == (State { camera_controller: final(self).camera_controller, ..*old(self) }),
            handled <==> is_movement_key(key),
            final(self).wf(),
    {
        self.camera_controller.process_events(key, pressed)
    }

    /// The update phase: the light orbits one degree further, and both
    /// uniforms are rewritten on the GPU — the camera's from the
    /// embedding's camera, the light's from the block held here. Returns
    /// the writes in order.
    pub fn update(&mut self) -> (writes: Vec<BufferWrite>)
        requires
            old(self).wf(),
        ensures
            final(self).light_uniform.angle_deg == (old(self).light_uniform.angle_deg
                + LIGHT_STEP_DEG) % 360,
            final(self).light_uniform.base == old(self).light_uniform.base,
            final(self).light_uniform.color == old(self).light_uniform.color,
            final(self).light_uniform.radius_sq() == old(self).light_uniform.radius_sq(),
            *final(self) == (State { light_uniform: final(self).light_uniform, ..*old(self) }),
            writes@ == seq![BufferWrite::CameraUniform, BufferWrite::LightUniform],
            final(self).wf(),
    {
        update_light(&mut self.light_uniform);
        let mut writes: Vec<BufferWrite> = Vec::new();
        writes.push(BufferWrite::CameraUniform);
        writes.push(BufferWrite::LightUniform);
        proof {
            assert(writes@ =~= seq![BufferWrite::CameraUniform, BufferWrite::LightUniform]);
        }
        writes
    }

    /// The render phase: one pass over the fixed background, the light
    /// marker first, then every instance of the model.
    pub fn render(&self) -> (r: (RenderPassDesc, Vec<RenderCommand>))
        requires
            self.wf(),
        ensures
            r.0.clear_color == background_color(),
            r.0.clear_depth == 1000,
            r.1@ == frame_cmds(self.obj_model, self.instances.len() as u32),
    {
        build_frame(&self.obj_model, self.instances.len() as u32)
    }

    /// Routes one window event: keyboard input goes to the controller
    /// first; what the scene does not swallow decides the loop's next
    /// step — closing or the escape key ends it, a size change asks for
    /// a resize, which is applied to this state as well.
    pub fn handle_window_event(&mut self, event: WindowEvent) -> (a: WindowAction)
        requires
            old(self).wf(),
        ensures
            final(self).wf(),
            match event {
                WindowEvent::CloseRequested => a is Exit && *final(self) == *old(self),
                WindowEvent::Keyboard { key, pressed } => {
                    &&& final(self).camera_controller == latched(
                        old(self).camera_controller,
                        key,
                        pressed,
                    )
                    &&& *final(self) == (State {
                        camera_controller: final(self).camera_controller,
                        ..*old(self)
                    })
                    &&& a == (if key is Escape && pressed {
                        WindowAction::Exit
                    } else {
                        WindowAction::Nothing
                    })
                },
                WindowEvent::Resized { width, height } => {
                    &&& a == (WindowAction::Resize { width, height })
                    &&& (width == 0 || height == 0 ==> *final(self) == *old(self))
                    &&& (width > 0 && height > 0 ==> final(self).config.width == width
                        && final(self).config.height == height
                        && final(self).depth_texture.width == width
                        && final(self).depth_texture.height == height)
                },
                WindowEvent::ScaleFactorChanged { width, height } => {
                    &&& a == (WindowAction::Resize { width, height })
                    &&& (width == 0 || height == 0 ==> *final(self) == *old(self))
                    &&& (width > 0 && height > 0 ==> final(self).config.width == width
                        && final(self).config.height == height
                        && final(self).depth_texture.width == width
                        && final(self).depth_texture.height == height)
                },
                WindowEvent::Other => a is Nothing && *final(self) == *old(self),
            },
    {
        match event {
            WindowEvent::CloseRequested => WindowAction::Exit,
            WindowEvent::Keyboard { key, pressed } => {
                let handled = self.input(key, pressed);
                if !handled && matches!(key, KeyCode::Escape) && pressed {
                    WindowAction::Exit
                } else {
                    WindowAction::Nothing
                }
            },
            WindowEvent::Resized { width, height } => {
                self.resize(width, height);
                WindowAction::Resize { width, height }
            },
            WindowEvent::ScaleFactorChanged { width, height } => {
                self.resize(width, height);
                WindowAction::Resize { width, height }
            },
            WindowEvent::Other => WindowAction::Nothing,
        }
    }
}

} // verus!
