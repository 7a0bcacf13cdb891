use scene_core::frame::{
    build_frame, classify_surface_error, draw_light_model, draw_model_instanced, BindGroupRef,
    BufferRef, FrameRecovery, IndexFormat, PipelineRef, RenderCommand, SurfaceErrorKind,
};
use scene_core::model::{make_material_desc, ModelDesc};

fn one_mesh_model() -> ModelDesc {
    let mut model = ModelDesc::new();
    model.push_material(make_material_desc("m", "m.png", ""));
    model.push_mesh("cube", 36, Some(0));
    model
}

#[test]
fn light_draw_binds_camera_and_light_then_draws() {
    let model = one_mesh_model();
    let mut cmds: Vec<RenderCommand> = Vec::new();
    draw_light_model(&mut cmds, &model);
    assert_eq!(
        cmds,
        vec![
            RenderCommand::SetVertexBuffer { slot: 0, buffer: BufferRef::MeshVertices { mesh: 0 } },
            RenderCommand::SetIndexBuffer {
                buffer: BufferRef::MeshIndices { mesh: 0 },
                format: IndexFormat::Uint32,
            },
            RenderCommand::SetBindGroup { index: 0, group: BindGroupRef::Camera },
            RenderCommand::SetBindGroup { index: 1, group: BindGroupRef::Light },
            RenderCommand::DrawIndexed {
                index_start: 0,
                index_end: 36,
                base_vertex: 0,
                instance_start: 0,
                instance_end: 1,
            },
        ]
    );
}

#[test]
fn model_draw_binds_material_camera_light_per_mesh() {
    let mut model = one_mesh_model();
    model.push_mesh("cube", 12, Some(0));
    let mut cmds: Vec<RenderCommand> = Vec::new();
    draw_model_instanced(&mut cmds, &model, 0, 9);
    assert_eq!(cmds.len(), 12);
    assert_eq!(
        cmds[2],
        RenderCommand::SetBindGroup { index: 0, group: BindGroupRef::Material { index: 0 } }
    );
    assert_eq!(cmds[3], RenderCommand::SetBindGroup { index: 1, group: BindGroupRef::Camera });
    assert_eq!(cmds[4], RenderCommand::SetBindGroup { index: 2, group: BindGroupRef::Light });
    assert_eq!(
        cmds[5],
        RenderCommand::DrawIndexed {
            index_start: 0,
            index_end: 36,
            base_vertex: 0,
            instance_start: 0,
            instance_end: 9,
        }
    );
    // The second mesh follows with its own buffers and draw.
    assert_eq!(
        cmds[6],
        RenderCommand::SetVertexBuffer { slot: 0, buffer: BufferRef::MeshVertices { mesh: 1 } }
    );
    assert_eq!(
        cmds[11],
        RenderCommand::DrawIndexed {
            index_start: 0,
            index_end: 12,
            base_vertex: 0,
            instance_start: 0,
            instance_end: 9,
        }
    );
}

#[test]
fn frame_clears_dark_and_draws_light_then_model() {
    let model = one_mesh_model();
    let (pass, cmds) = build_frame(&model, 9);
    assert_eq!(pass.clear_color.r, 5);
    assert_eq!(pass.clear_color.g, 5);
    assert_eq!(pass.clear_color.b, 5);
    assert_eq!(pass.clear_color.a, 1000);
    assert_eq!(pass.clear_depth, 1000);

    assert_eq!(
        cmds[0],
        RenderCommand::SetVertexBuffer { slot: 1, buffer: BufferRef::Instances }
    );
    assert_eq!(cmds[1], RenderCommand::SetPipeline { pipeline: PipelineRef::Light });
    // Five commands of the light draw, then the main pipeline.
    assert_eq!(cmds[7], RenderCommand::SetPipeline { pipeline: PipelineRef::Main });
    assert_eq!(cmds.len(), 2 + 5 + 1 + 6);
    assert_eq!(
        cmds[13],
        RenderCommand::DrawIndexed {
            index_start: 0,
            index_end: 36,
            base_vertex: 0,
            instance_start: 0,
            instance_end: 9,
        }
    );
}

#[test]
fn each_mesh_is_drawn_twice_per_frame() {
    let mut model = one_mesh_model();
    model.push_mesh("cube", 12, Some(0));
    model.push_mesh("cube", 6, None);
    let (_, cmds) = build_frame(&model, 4);
    let draws = cmds
        .iter()
        .filter(|c| matches!(c, RenderCommand::DrawIndexed { .. }))
        .count();
    assert_eq!(draws, 2 * 3);
}

#[test]
fn lost_surfaces_reconfigure_and_memory_exhaustion_exits() {
    assert_eq!(classify_surface_error(SurfaceErrorKind::Lost), FrameRecovery::Reconfigure);
    assert_eq!(classify_surface_error(SurfaceErrorKind::Outdated), FrameRecovery::Reconfigure);
    assert_eq!(classify_surface_error(SurfaceErrorKind::OutOfMemory), FrameRecovery::Exit);
    assert_eq!(classify_surface_error(SurfaceErrorKind::Timeout), FrameRecovery::SkipFrame);
}
