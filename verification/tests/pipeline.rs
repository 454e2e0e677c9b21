use webgl_render::component::{Mesh, Position, RenderSystem};
use webgl_render::engine::Engine;
use webgl_render::gpu::{EngineError, GpuCaps, GpuCommand, GpuContext, ShaderStage, ShaderVariant};
use webgl_render::render::Renderer;
use webgl_render::shader::{WebShader, WebShaderSystem};

fn full_caps() -> GpuCaps {
    GpuCaps { vao_extension: true, shaders_compile: true, programs_link: true }
}

fn mesh(name: &str, floats: Vec<u32>) -> Mesh {
    Mesh::new(name.to_string(), floats, ShaderVariant::NonSkinnedMesh)
}

fn count_uploads(log: &[GpuCommand]) -> usize {
    log.iter()
        .filter(|c| matches!(c, GpuCommand::UploadVertexData { .. }))
        .count()
}

fn count_binds(log: &[GpuCommand]) -> usize {
    log.iter()
        .filter(|c| matches!(c, GpuCommand::BindProgram { .. }))
        .count()
}

#[test]
fn construction_succeeds_with_full_caps() {
    let engine = Engine::new(full_caps()).unwrap();
    // Both render paths initialize their program store and look the
    // vertex-array extension up: compile, compile, link, bind, extension —
    // twice.
    let log = engine.commands();
    assert_eq!(log.len(), 10);
    assert_eq!(
        log[0],
        GpuCommand::CompileShader {
            variant: ShaderVariant::NonSkinnedMesh,
            stage: ShaderStage::Vertex
        }
    );
    assert_eq!(
        log[1],
        GpuCommand::CompileShader {
            variant: ShaderVariant::NonSkinnedMesh,
            stage: ShaderStage::Fragment
        }
    );
    assert_eq!(log[2], GpuCommand::LinkProgram { variant: ShaderVariant::NonSkinnedMesh });
    assert_eq!(log[3], GpuCommand::BindProgram { variant: ShaderVariant::NonSkinnedMesh });
    assert_eq!(log[4], GpuCommand::GetVaoExtension);
    assert_eq!(log[5..10], log[0..5]);
    assert_eq!(engine.world.entities.len(), 0);
    assert_eq!(engine.world.pending.len(), 0);
}

#[test]
fn construction_fails_without_extension() {
    let caps = GpuCaps { vao_extension: false, shaders_compile: true, programs_link: true };
    match Engine::new(caps) {
        Ok(_) => panic!("construction must fail without the vertex-array extension"),
        Err(e) => assert_eq!(e, EngineError::MissingVaoExtension),
    }
}

#[test]
fn construction_fails_on_compile_error() {
    let caps = GpuCaps { vao_extension: true, shaders_compile: false, programs_link: true };
    match Engine::new(caps) {
        Ok(_) => panic!("construction must fail when shaders do not compile"),
        Err(e) => assert_eq!(
            e,
            EngineError::ShaderCompileFailed {
                variant: ShaderVariant::NonSkinnedMesh,
                stage: ShaderStage::Vertex
            }
        ),
    }
}

#[test]
fn construction_fails_on_link_error() {
    let caps = GpuCaps { vao_extension: true, shaders_compile: true, programs_link: false };
    match Engine::new(caps) {
        Ok(_) => panic!("construction must fail when programs do not link"),
        Err(e) => assert_eq!(
            e,
            EngineError::ProgramLinkFailed { variant: ShaderVariant::NonSkinnedMesh }
        ),
    }
}

#[test]
fn empty_frame_still_clears_and_sets_viewport() {
    let mut engine = Engine::new(full_caps()).unwrap();
    engine.take_commands();
    engine.render();
    let log = engine.take_commands();
    assert_eq!(
        log,
        vec![
            GpuCommand::ClearColorAndDepth,
            GpuCommand::SetViewport { x: 0, y: 0, width: 500, height: 500 },
        ]
    );
}

#[test]
fn upload_happens_once_per_identity() {
    let mut ctx = GpuContext::new(full_caps());
    let mut sys = RenderSystem::new(&mut ctx).unwrap();
    let d1 = mesh("left", vec![0, 0, 0]);
    let d2 = mesh("right", vec![1, 1, 1]);
    let start = ctx.log.len();
    sys.prepare_for_render(&mut ctx, &d1);
    sys.prepare_for_render(&mut ctx, &d2);
    sys.prepare_for_render(&mut ctx, &d1);
    let log = &ctx.log[start..];
    // One upload for each identity, none for the repeated call.
    assert_eq!(count_uploads(log), 2);
    assert_eq!(
        log[0..4],
        [
            GpuCommand::CreateVao { vao: 0 },
            GpuCommand::BindVao { vao: 0 },
            GpuCommand::EnableAttribute {
                variant: ShaderVariant::NonSkinnedMesh,
                name: "a_position".to_string()
            },
            GpuCommand::UploadVertexData { components: 2, floats: vec![0, 0, 0] },
        ]
    );
    assert_eq!(log[4], GpuCommand::CreateVao { vao: 1 });
    assert_eq!(log[7], GpuCommand::UploadVertexData { components: 2, floats: vec![1, 1, 1] });
    // The third call only rebinds the first identity's vertex array.
    assert_eq!(log[8], GpuCommand::BindVao { vao: 0 });
    assert_eq!(log.len(), 9);
}

#[test]
fn activate_twice_binds_once() {
    let mut ctx = GpuContext::new(full_caps());
    let mut sys = WebShaderSystem::new(&mut ctx).unwrap();
    // Make the requested variant inactive first.
    sys.active_program = ShaderVariant::SkinnedMesh;
    let start = ctx.log.len();
    sys.use_program(&mut ctx, ShaderVariant::NonSkinnedMesh);
    sys.use_program(&mut ctx, ShaderVariant::NonSkinnedMesh);
    let log = &ctx.log[start..];
    assert_eq!(count_binds(log), 1);
    assert_eq!(log, [GpuCommand::BindProgram { variant: ShaderVariant::NonSkinnedMesh }]);
}

#[test]
fn activating_the_active_program_is_a_no_op() {
    let mut ctx = GpuContext::new(full_caps());
    let mut sys = WebShaderSystem::new(&mut ctx).unwrap();
    let start = ctx.log.len();
    sys.use_program(&mut ctx, ShaderVariant::NonSkinnedMesh);
    assert_eq!(ctx.log.len(), start);
}

#[test]
fn two_drawables_one_variant_bind_once_draw_each() {
    let mut ctx = GpuContext::new(full_caps());
    let mut sys = RenderSystem::new(&mut ctx).unwrap();
    sys.shader_sys.active_program = ShaderVariant::SkinnedMesh;
    let entities = vec![
        (Position { x_bits: 0, y_bits: 0 }, mesh("left", vec![0, 0, 1, 1, 2, 2])),
        (Position { x_bits: 0, y_bits: 0 }, mesh("right", vec![3, 3, 4, 4, 5, 5])),
    ];
    let start = ctx.log.len();
    sys.run(&mut ctx, &entities);
    let log = &ctx.log[start..];
    assert_eq!(
        log,
        [
            GpuCommand::ClearColorAndDepth,
            GpuCommand::SetViewport { x: 0, y: 0, width: 500, height: 500 },
            GpuCommand::BindProgram { variant: ShaderVariant::NonSkinnedMesh },
            GpuCommand::CreateVao { vao: 0 },
            GpuCommand::BindVao { vao: 0 },
            GpuCommand::EnableAttribute {
                variant: ShaderVariant::NonSkinnedMesh,
                name: "a_position".to_string()
            },
            GpuCommand::UploadVertexData { components: 2, floats: vec![0, 0, 1, 1, 2, 2] },
            GpuCommand::DrawTriangles { first: 0, count: 3 },
            GpuCommand::CreateVao { vao: 1 },
            GpuCommand::BindVao { vao: 1 },
            GpuCommand::EnableAttribute {
                variant: ShaderVariant::NonSkinnedMesh,
                name: "a_position".to_string()
            },
            GpuCommand::UploadVertexData { components: 2, floats: vec![3, 3, 4, 4, 5, 5] },
            GpuCommand::DrawTriangles { first: 0, count: 3 },
        ]
    );
}

#[test]
fn rerendering_a_cached_mesh_rebinds_without_upload() {
    let mut ctx = GpuContext::new(full_caps());
    let mut sys = RenderSystem::new(&mut ctx).unwrap();
    let entities = vec![(Position { x_bits: 0, y_bits: 0 }, mesh("quad", vec![0, 0, 1, 1]))];
    sys.run(&mut ctx, &entities);
    let start = ctx.log.len();
    sys.run(&mut ctx, &entities);
    let log = &ctx.log[start..];
    assert_eq!(
        log,
        [
            GpuCommand::ClearColorAndDepth,
            GpuCommand::SetViewport { x: 0, y: 0, width: 500, height: 500 },
            GpuCommand::BindVao { vao: 0 },
            GpuCommand::DrawTriangles { first: 0, count: 2 },
        ]
    );
}

#[test]
fn uniform_location_is_cached_per_name() {
    let mut ctx = GpuContext::new(full_caps());
    let mut shader = WebShader::new(&mut ctx, ShaderVariant::NonSkinnedMesh).unwrap();
    let start = ctx.log.len();
    let first = shader.get_uniform_location(&mut ctx, "view");
    let again = shader.get_uniform_location(&mut ctx, "view");
    assert_eq!(first, Some(0));
    assert_eq!(again, Some(0));
    // Exactly one context lookup for the repeated name.
    assert_eq!(
        &ctx.log[start..],
        [GpuCommand::LookupUniform {
            variant: ShaderVariant::NonSkinnedMesh,
            name: "view".to_string()
        }]
    );
    // A different name gets the next dense location and its own lookup.
    let other = shader.get_uniform_location(&mut ctx, "perspective");
    assert_eq!(other, Some(1));
    assert_eq!(ctx.log.len(), start + 2);
}

#[test]
fn get_shader_reports_uninitialized_variants() {
    let mut ctx = GpuContext::new(full_caps());
    let sys = WebShaderSystem::new(&mut ctx).unwrap();
    assert!(sys.get_shader(&ShaderVariant::NonSkinnedMesh).is_some());
    assert!(sys.get_shader(&ShaderVariant::SkinnedMesh).is_none());
}

#[test]
fn start_seeds_one_pending_drawable() {
    let mut engine = Engine::new(full_caps()).unwrap();
    engine.start().unwrap();
    assert_eq!(engine.world.entities.len(), 0);
    assert_eq!(engine.world.pending.len(), 1);
    let (pos, seeded) = &engine.world.pending[0];
    assert_eq!(*pos, Position { x_bits: 0, y_bits: 0 });
    assert_eq!(seeded.name, "Test");
    assert_eq!(seeded.shader_kind, ShaderVariant::NonSkinnedMesh);
    let expected: Vec<u32> = [0.0f32, 0.0, 0.0, 0.5, 0.7, 0.0]
        .iter()
        .map(|f| f.to_bits())
        .collect();
    assert_eq!(seeded.vertices, expected);
}

#[test]
fn seeded_drawable_renders_on_the_frame_after_maintenance() {
    let mut engine = Engine::new(full_caps()).unwrap();
    engine.start().unwrap();
    engine.take_commands();
    // First frame: the seed is still pending, so only clear and viewport;
    // maintenance then commits it.
    engine.render();
    let first = engine.take_commands();
    assert_eq!(count_uploads(&first), 0);
    assert_eq!(engine.world.entities.len(), 1);
    assert_eq!(engine.world.pending.len(), 0);
    // Second frame: the committed drawable is uploaded once and drawn.
    engine.render();
    let second = engine.take_commands();
    assert_eq!(count_uploads(&second), 1);
    assert_eq!(second.last(), Some(&GpuCommand::DrawTriangles { first: 0, count: 3 }));
}

#[test]
fn update_records_the_time_delta() {
    let mut engine = Engine::new(full_caps()).unwrap();
    assert_eq!(engine.world.delta_time_bits, 0);
    engine.update(0.25f32.to_bits());
    assert_eq!(engine.world.delta_time_bits, 0.25f32.to_bits());
    assert_eq!(f32::from_bits(engine.world.delta_time_bits), 0.25);
}

#[test]
fn maintain_commits_in_creation_order() {
    let mut engine = Engine::new(full_caps()).unwrap();
    engine
        .world
        .create_entity(Position { x_bits: 1, y_bits: 1 }, mesh("first", vec![0, 0]));
    engine
        .world
        .create_entity(Position { x_bits: 2, y_bits: 2 }, mesh("second", vec![1, 1]));
    engine.world.maintain();
    assert_eq!(engine.world.entities.len(), 2);
    assert_eq!(engine.world.entities[0].1.name, "first");
    assert_eq!(engine.world.entities[1].1.name, "second");
    assert_eq!(engine.world.pending.len(), 0);
}

#[test]
fn renderer_frame_clears_and_keeps_program_bound() {
    let mut ctx = GpuContext::new(full_caps());
    let mut renderer = Renderer::new(&mut ctx).unwrap();
    let start = ctx.log.len();
    renderer.render(&mut ctx);
    // The store's program is already active after construction: no rebind.
    assert_eq!(
        &ctx.log[start..],
        [
            GpuCommand::ClearColorAndDepth,
            GpuCommand::SetViewport { x: 0, y: 0, width: 800, height: 800 },
        ]
    );
}

#[test]
fn renderer_stages_an_identity_once() {
    let mut ctx = GpuContext::new(full_caps());
    let mut renderer = Renderer::new(&mut ctx).unwrap();
    let key = "Terrain".to_string();
    let start = ctx.log.len();
    renderer.prepare_for_render(&mut ctx, &key);
    renderer.prepare_for_render(&mut ctx, &key);
    assert_eq!(
        &ctx.log[start..],
        [
            GpuCommand::CreateVao { vao: 0 },
            GpuCommand::BindVao { vao: 0 },
            GpuCommand::BindVao { vao: 0 },
        ]
    );
}

#[test]
fn renderer_construction_fails_without_extension() {
    let caps = GpuCaps { vao_extension: false, shaders_compile: true, programs_link: true };
    let mut ctx = GpuContext::new(caps);
    match Renderer::new(&mut ctx) {
        Ok(_) => panic!("renderer construction must fail without the extension"),
        Err(e) => assert_eq!(e, EngineError::MissingVaoExtension),
    }
    // The failed lookup happened after the program store initialized.
    assert_eq!(ctx.log.last(), Some(&GpuCommand::GetVaoExtension));
}

#[test]
fn buffer_helpers_record_their_payloads() {
    let mut ctx = GpuContext::new(full_caps());
    Mesh::buffer_f32_data(&mut ctx, &[7, 8, 9], 3);
    Mesh::buffer_u8_data(&mut ctx, &[1, 2], 2);
    Mesh::buffer_u16_indices(&mut ctx, &[0, 1, 2]);
    assert_eq!(
        ctx.log,
        vec![
            GpuCommand::UploadVertexData { components: 3, floats: vec![7, 8, 9] },
            GpuCommand::UploadByteData { components: 2, bytes: vec![1, 2] },
            GpuCommand::UploadIndexData { indices: vec![0, 1, 2] },
        ]
    );
}

#[test]
fn draw_call_covers_the_uploaded_vertex_range() {
    let mut ctx = GpuContext::new(full_caps());
    // Eight floats at two components per vertex: four vertices.
    let m = mesh("strip", vec![0, 0, 1, 1, 2, 2, 3, 3]);
    m.render(&mut ctx);
    assert_eq!(ctx.log, vec![GpuCommand::DrawTriangles { first: 0, count: 4 }]);
}

#[test]
fn take_commands_drains_the_log() {
    let mut engine = Engine::new(full_caps()).unwrap();
    let drained = engine.take_commands();
    assert_eq!(drained.len(), 10);
    assert_eq!(engine.commands().len(), 0);
    engine.render();
    assert_eq!(engine.commands().len(), 2);
}
