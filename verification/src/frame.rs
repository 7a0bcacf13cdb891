//! The per-frame command stream, and what to do when a frame cannot be
//! acquired.
//!
//! A frame is one render pass: clear to the fixed dark background and
//! full depth, bind the instance buffer, draw the light's marker mesh
//! with the light pipeline, then draw every instance of the model with
//! the main pipeline. The pass is described here as data — an exact
//! sequence of commands — which the embedding replays against the GPU.

use vstd::prelude::*;
use crate::model::{MeshDesc, ModelDesc};

verus! {

/// A colour with channels in thousandths, `1000` being full intensity.
#[derive(Clone, Copy, Debug, PartialEq, Eq, Structural)]
pub struct Color {
    pub r: i64,
    pub g: i64,
    pub b: i64,
    pub a: i64,
}

/// The vertex and index buffers a command can bind: a mesh's two
/// buffers, or the shared instance buffer.
#[derive(Clone, Copy, Debug, PartialEq, Eq, Structural)]
pub enum BufferRef {
    MeshVertices { mesh: usize },
    MeshIndices { mesh: usize },
    Instances,
}

/// The bind groups a command can bind.
#[derive(Clone, Copy, Debug, PartialEq, Eq, Structural)]
pub enum BindGroupRef {
    Material { index: usize },
    Camera,
    Light,
}

/// The two pipelines of the scene.
#[derive(Clone, Copy, Debug, PartialEq, Eq, Structural)]
pub enum PipelineRef {
    Main,
    Light,
}

/// How indices are encoded in every index buffer of the scene.
#[derive(Clone, Copy, Debug, PartialEq, Eq, Structural)]
pub enum IndexFormat {
    Uint32,
}

/// One command of the render pass.
#[derive(Clone, Copy, Debug, PartialEq, Eq, Structural)]
pub enum RenderCommand {
    SetVertexBuffer { slot: u32, buffer: BufferRef },
    SetIndexBuffer { buffer: BufferRef, format: IndexFormat },
    SetBindGroup { index: u32, group: BindGroupRef },
    SetPipeline { pipeline: PipelineRef },
    DrawIndexed {
        index_start: u32,
        index_end: u32,
        base_vertex: i32,
        instance_start: u32,
        instance_end: u32,
    },
}

/// How the single pass opens: colour cleared to the fixed dark
/// background, depth cleared to one (the far plane), both stored, and no
/// stencil.
#[derive(Clone, Copy, Debug, PartialEq, Eq, Structural)]
pub struct RenderPassDesc {
    pub clear_color: Color,
    /// Depth-clear value in thousandths; the far plane is `1000`.
    pub clear_depth: i64,
}

/// The background every frame clears to: five thousandths of intensity
/// on each channel, fully opaque.
pub open spec fn background_color() -> Color {
    Color { r: 5, g: 5, b: 5, a: 1000 }
}

/// The commands that draw one mesh with the light pipeline: its two
/// buffers, the camera and light groups, then the indexed draw.
pub open spec fn light_mesh_cmds(mesh_idx: int, mesh: MeshDesc, inst_start: u32, inst_end: u32)
    -> Seq<RenderCommand> {
    seq![
        RenderCommand::SetVertexBuffer { slot: 0, buffer: BufferRef::MeshVertices { mesh: mesh_idx as usize } },
        RenderCommand::SetIndexBuffer { buffer: BufferRef::MeshIndices { mesh: mesh_idx as usize }, format: IndexFormat::Uint32 },
        RenderCommand::SetBindGroup { index: 0, group: BindGroupRef::Camera },
        RenderCommand::SetBindGroup { index: 1, group: BindGroupRef::Light },
        RenderCommand::DrawIndexed {
            index_start: 0,
            index_end: mesh.num_elements,
            base_vertex: 0,
            instance_start: inst_start,
            instance_end: inst_end,
        },
    ]
}

/// The commands that draw the first `k` meshes of the model with the
/// light pipeline, in mesh order.
pub open spec fn light_model_cmds_upto(meshes: Seq<MeshDesc>, k: int, inst_start: u32, inst_end: u32)
    -> Seq<RenderCommand>
    decreases k,
{
    if k <= 0 {
        Seq::empty()
    } else {
        light_model_cmds_upto(meshes, k - 1, inst_start, inst_end)
            + light_mesh_cmds(k - 1, meshes[k - 1], inst_start, inst_end)
    }
}

/// The commands that draw one mesh with the main pipeline: its two
/// buffers, its material's textures at group 0, the camera and light
/// groups, then the indexed draw over the instance range.
pub open spec fn model_mesh_cmds(mesh_idx: int, mesh: MeshDesc, inst_start: u32, inst_end: u32)
    -> Seq<RenderCommand> {
    seq![
        RenderCommand::SetVertexBuffer { slot: 0, buffer: BufferRef::MeshVertices { mesh: mesh_idx as usize } },
        RenderCommand::SetIndexBuffer { buffer: BufferRef::MeshIndices { mesh: mesh_idx as usize }, format: IndexFormat::Uint32 },
        RenderCommand::SetBindGroup { index: 0, group: BindGroupRef::Material { index: mesh.material } },
        RenderCommand::SetBindGroup { index: 1, group: BindGroupRef::Camera },
        RenderCommand::SetBindGroup { index: 2, group: BindGroupRef::Light },
        RenderCommand::DrawIndexed {
            index_start: 0,
            index_end: mesh.num_elements,
            base_vertex: 0,
            instance_start: inst_start,
            instance_end: inst_end,
        },
    ]
}

/// The commands that draw the first `k` meshes of the model with the
/// main pipeline, in mesh order.
pub open spec fn model_cmds_upto(meshes: Seq<MeshDesc>, k: int, inst_start: u32, inst_end: u32)
    -> Seq<RenderCommand>
    decreases k,
{
    if k <= 0 {
        Seq::empty()
    } else {
        model_cmds_upto(meshes, k - 1, inst_start, inst_end)
            + model_mesh_cmds(k - 1, meshes[k - 1], inst_start, inst_end)
    }
}

/// Appends the commands that draw one mesh with the light pipeline.
pub fn draw_light_mesh_instanced(
    cmds: &mut Vec<RenderCommand>,
    mesh_idx: usize,
    mesh: &MeshDesc,
    inst_start: u32,
    inst_end: u32,
)
    ensures
        final(cmds)@ == old(cmds)@ + light_mesh_cmds(mesh_idx as int, *mesh, inst_start, inst_end),
{
    cmds.push(RenderCommand::SetVertexBuffer { slot: 0, buffer: BufferRef::MeshVertices { mesh: mesh_idx } });
    cmds.push(RenderCommand::SetIndexBuffer { buffer: BufferRef::MeshIndices { mesh: mesh_idx }, format: IndexFormat::Uint32 });
    cmds.push(RenderCommand::SetBindGroup { index: 0, group: BindGroupRef::Camera });
    cmds.push(RenderCommand::SetBindGroup { index: 1, group: BindGroupRef::Light });
    cmds.push(RenderCommand::DrawIndexed {
        index_start: 0,
        index_end: mesh.num_elements,
        base_vertex: 0,
        instance_start: inst_start,
        instance_end: inst_end,
    });
    proof {
        assert(cmds@ =~= old(cmds)@ + light_mesh_cmds(mesh_idx as int, *mesh, inst_start, inst_end));
    }
}

/// Appends the commands that draw one mesh with the light pipeline,
/// once.
pub fn draw_light_mesh(cmds: &mut Vec<RenderCommand>, mesh_idx: usize, mesh: &MeshDesc)
    ensures
        final(cmds)@ == old(cmds)@ + light_mesh_cmds(mesh_idx as int, *mesh, 0, 1),
{
    draw_light_mesh_instanced(cmds, mesh_idx, mesh, 0, 1);
}

/// Appends the commands that draw every mesh of the model with the
/// light pipeline, in order.
pub fn draw_light_model_instanced(
    cmds: &mut Vec<RenderCommand>,
    model: &ModelDesc,
    inst_start: u32,
    inst_end: u32,
)
    ensures
        final(cmds)@ == old(cmds)@ + light_model_cmds_upto(
            model.meshes@,
            model.meshes.len() as int,
            inst_start,
            inst_end,
        ),
{
    let n = model.meshes.len();
    let mut i: usize = 0;
    while i < n
        invariant
            0 <= i <= n,
            n == model.meshes.len(),
            cmds@ == old(cmds)@ + light_model_cmds_upto(model.meshes@, i as int, inst_start, inst_end),
        decreases n - i,
    {
        draw_light_mesh_instanced(cmds, i, &model.meshes[i], inst_start, inst_end);
        i = i + 1;
    }
}

/// Appends the commands that draw every mesh of the model with the
/// light pipeline, once.
pub fn draw_light_model(cmds: &mut Vec<RenderCommand>, model: &ModelDesc)
    ensures
        final(cmds)@ == old(cmds)@ + light_model_cmds_upto(model.meshes@, model.meshes.len() as int, 0, 1),
{
    draw_light_model_instanced(cmds, model, 0, 1);
}

/// Appends the commands that draw one mesh of the model with the main
/// pipeline over an instance range.
pub fn draw_mesh_instanced(
    cmds: &mut Vec<RenderCommand>,
    mesh_idx: usize,
    mesh: &MeshDesc,
    inst_start: u32,
    inst_end: u32,
)
    ensures
        final(cmds)@ == old(cmds)@ + model_mesh_cmds(mesh_idx as int, *mesh, inst_start, inst_end),
{
    cmds.push(RenderCommand::SetVertexBuffer { slot: 0, buffer: BufferRef::MeshVertices { mesh: mesh_idx } });
    cmds.push(RenderCommand::SetIndexBuffer { buffer: BufferRef::MeshIndices { mesh: mesh_idx }, format: IndexFormat::Uint32 });
    cmds.push(RenderCommand::SetBindGroup { index: 0, group: BindGroupRef::Material { index: mesh.material } });
    cmds.push(RenderCommand::SetBindGroup { index: 1, group: BindGroupRef::Camera });
    cmds.push(RenderCommand::SetBindGroup { index: 2, group: BindGroupRef::Light });
    cmds.push(RenderCommand::DrawIndexed {
        index_start: 0,
        index_end: mesh.num_elements,
        base_vertex: 0,
        instance_start: inst_start,
        instance_end: inst_end,
    });
    proof {
        assert(cmds@ =~= old(cmds)@ + model_mesh_cmds(mesh_idx as int, *mesh, inst_start, inst_end));
    }
}

/// Appends the commands that draw every mesh of the model with the main
/// pipeline over an instance range: one instanced draw per mesh.
pub fn draw_model_instanced(
    cmds: &mut Vec<RenderCommand>,
    model: &ModelDesc,
    inst_start: u32,
    inst_end: u32,
)
    ensures
        final(cmds)@ == old(cmds)@ + model_cmds_upto(
            model.meshes@,
            model.meshes.len() as int,
            inst_start,
            inst_end,
        ),
{
    let n = model.meshes.len();
    let mut i: usize = 0;
    while i < n
        invariant
            0 <= i <= n,
            n == model.meshes.len(),
            cmds@ == old(cmds)@ + model_cmds_upto(model.meshes@, i as int, inst_start, inst_end),
        decreases n - i,
    {
        draw_mesh_instanced(cmds, i, &model.meshes[i], inst_start, inst_end);
        i = i + 1;
    }
}

/// The whole pass of one frame: bind the instance buffer at slot 1,
/// draw the light's marker with the light pipeline, then draw all
/// `n_instances` instances of the model with the main pipeline.
pub open spec fn frame_cmds(model: ModelDesc, n_instances: u32) -> Seq<RenderCommand> {
    seq![
        RenderCommand::SetVertexBuffer { slot: 1, buffer: BufferRef::Instances },
        RenderCommand::SetPipeline { pipeline: PipelineRef::Light },
    ] + light_model_cmds_upto(model.meshes@, model.meshes.len() as int, 0, 1)
        + seq![RenderCommand::SetPipeline { pipeline: PipelineRef::Main }]
        + model_cmds_upto(model.meshes@, model.meshes.len() as int, 0, n_instances)
}

/// Builds one frame: how the pass opens, and the exact command
/// sequence it replays.
pub fn build_frame(model: &ModelDesc, n_instances: u32) -> (r: (RenderPassDesc, Vec<RenderCommand>))
    ensures
        r.0.clear_color == background_color(),
        r.0.clear_depth == 1000,
        r.1@ == frame_cmds(*model, n_instances),
{
    let pass = RenderPassDesc { clear_color: Color { r: 5, g: 5, b: 5, a: 1000 }, clear_depth: 1000 };
    let mut cmds: Vec<RenderCommand> = Vec::new();
    cmds.push(RenderCommand::SetVertexBuffer { slot: 1, buffer: BufferRef::Instances });
    cmds.push(RenderCommand::SetPipeline { pipeline: PipelineRef::Light });
    draw_light_model(&mut cmds, model);
    cmds.push(RenderCommand::SetPipeline { pipeline: PipelineRef::Main });
    draw_model_instanced(&mut cmds, model, 0, n_instances);
    proof {
        assert(cmds@ =~= frame_cmds(*model, n_instances));
    }
    (pass, cmds)
}

/// How many indexed draws a command sequence issues.
pub open spec fn count_draws(s: Seq<RenderCommand>) -> nat
    decreases s.len(),
{
    if s.len() == 0 {
        0
    } else {
        count_draws(s.drop_last()) + if s.last() is DrawIndexed {
            1nat
        } else {
            0nat
        }
    }
}

/// Draw counting distributes over concatenation.
proof fn lemma_count_draws_add(a: Seq<RenderCommand>, b: Seq<RenderCommand>)
    ensures
        count_draws(a + b) == count_draws(a) + count_draws(b),
    decreases b.len(),
{
    if b.len() == 0 {
        assert(a + b =~= a);
    } else {
        lemma_count_draws_add(a, b.drop_last());
        assert((a + b).drop_last() =~= a + b.drop_last());
        assert((a + b).last() == b.last());
    }
}

/// Drawing one mesh issues exactly one indexed draw, with either
/// pipeline.
proof fn lemma_mesh_cmds_one_draw(mesh_idx: int, mesh: MeshDesc, inst_start: u32, inst_end: u32)
    ensures
        count_draws(light_mesh_cmds(mesh_idx, mesh, inst_start, inst_end)) == 1,
        count_draws(model_mesh_cmds(mesh_idx, mesh, inst_start, inst_end)) == 1,
{
    reveal_with_fuel(count_draws, 7);
}

/// Drawing the first `k` meshes issues exactly `k` indexed draws, with
/// either pipeline.
proof fn lemma_model_cmds_upto_draws(meshes: Seq<MeshDesc>, k: int, inst_start: u32, inst_end: u32)
    requires
        k >= 0,
    ensures
        count_draws(light_model_cmds_upto(meshes, k, inst_start, inst_end)) == k,
        count_draws(model_cmds_upto(meshes, k, inst_start, inst_end)) == k,
    decreases k,
{
    if k == 0 {
    } else {
        lemma_model_cmds_upto_draws(meshes, k - 1, inst_start, inst_end);
        lemma_mesh_cmds_one_draw(k - 1, meshes[k - 1], inst_start, inst_end);
        lemma_count_draws_add(
            light_model_cmds_upto(meshes, k - 1, inst_start, inst_end),
            light_mesh_cmds(k - 1, meshes[k - 1], inst_start, inst_end),
        );
        lemma_count_draws_add(
            model_cmds_upto(meshes, k - 1, inst_start, inst_end),
            model_mesh_cmds(k - 1, meshes[k - 1], inst_start, inst_end),
        );
    }
}

/// One frame issues exactly two indexed draws per mesh of the model:
/// one for the light's marker, one instanced draw for the scene.
pub proof fn lemma_frame_draw_count(model: ModelDesc, n_instances: u32)
    ensures
        count_draws(frame_cmds(model, n_instances)) == 2 * model.meshes.len(),
{
    let head = seq![
        RenderCommand::SetVertexBuffer { slot: 1, buffer: BufferRef::Instances },
        RenderCommand::SetPipeline { pipeline: PipelineRef::Light },
    ];
    let lights = light_model_cmds_upto(model.meshes@, model.meshes.len() as int, 0, 1);
    let mid = seq![RenderCommand::SetPipeline { pipeline: PipelineRef::Main }];
    let draws = model_cmds_upto(model.meshes@, model.meshes.len() as int, 0, n_instances);
    lemma_model_cmds_upto_draws(model.meshes@, model.meshes.len() as int, 0, 1);
    lemma_model_cmds_upto_draws(model.meshes@, model.meshes.len() as int, 0, n_instances);
    reveal_with_fuel(count_draws, 4);
    lemma_count_draws_add(head, lights);
    lemma_count_draws_add(head + lights, mid);
    lemma_count_draws_add(head + lights + mid, draws);
}

/// Why acquiring the next frame failed. These are the only failures the
/// surface reports.
#[derive(Clone, Copy, Debug, PartialEq, Eq, Structural)]
pub enum SurfaceErrorKind {
    /// The frame took too long to become available.
    Timeout,
    /// The surface's configuration no longer matches the window.
    Outdated,
    /// The swapchain was lost and must be rebuilt.
    Lost,
    /// The system is out of memory.
    OutOfMemory,
}

/// What the frame loop does about a failed acquire.
#[derive(Clone, Copy, Debug, PartialEq, Eq, Structural)]
pub enum FrameRecovery {
    /// Reconfigure the surface at its current size, then try again next
    /// frame.
    Reconfigure,
    /// Shut down in an orderly way; nothing can be recovered.
    Exit,
    /// Log and skip this frame; the next one resolves it.
    SkipFrame,
}

/// Classifies a failed acquire: a lost or outdated swapchain is
/// recoverable — reconfigure and retry next frame; memory exhaustion is
/// fatal; a timeout is transient and resolves itself next frame.
pub fn classify_surface_error(e: SurfaceErrorKind) -> (r: FrameRecovery)
    ensures
        e is Lost || e is Outdated ==> r is Reconfigure,
        e is OutOfMemory ==> r is Exit,
        e is Timeout ==> r is SkipFrame,
{
    match e {
        SurfaceErrorKind::Lost => FrameRecovery::Reconfigure,
        SurfaceErrorKind::Outdated => FrameRecovery::Reconfigure,
        SurfaceErrorKind::OutOfMemory => FrameRecovery::Exit,
        SurfaceErrorKind::Timeout => FrameRecovery::SkipFrame,
    }
}

} // verus!
