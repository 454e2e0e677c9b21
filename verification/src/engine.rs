//! The engine: the context, the scene store and the render paths, driven by
//! the host once per animation tick.
//!
//! The host owns the real rendering surface and the tick loop; it constructs
//! the engine with the capabilities it found on the context, forwards
//! `update` and `render` once per tick, and replays the engine's recorded
//! commands against the real context.

use vstd::prelude::*;

use crate::component::{
    construction_error, meshes_view, system_init_trace, Mesh, Position, RenderSystem,
};
use crate::gpu::{Cmd, EngineError, GpuCaps, GpuCommand, GpuContext, ShaderVariant};
use crate::pass::{frame, MeshModel};
use crate::render::Renderer;

verus! {

/// The scene store: the committed drawable entities the render pass walks,
/// and the creations still pending until the next maintenance step. Also
/// holds the per-frame resources — the time delta the host last reported
/// (as the IEEE-754 bit pattern of a 32-bit float).
pub struct World {
    pub entities: Vec<(Position, Mesh)>,
    pub pending: Vec<(Position, Mesh)>,
    pub delta_time_bits: u32,
}

impl World {
    /// An empty scene.
    pub fn new() -> (w: World)
        ensures
            w.entities@.len() == 0,
            w.pending@.len() == 0,
            w.delta_time_bits == 0,
    {
        World { entities: Vec::new(), pending: Vec::new(), delta_time_bits: 0 }
    }

    /// Create a drawable entity; it becomes visible to the render pass at
    /// the next maintenance step.
    pub fn create_entity(&mut self, position: Position, mesh: Mesh)
        ensures
            final(self).entities == old(self).entities,
            final(self).delta_time_bits == old(self).delta_time_bits,
            final(self).pending@.len() == old(self).pending@.len() + 1,
            forall|i: int|
                0 <= i < old(self).pending@.len() ==> final(self).pending@[i] == old(
                    self,
                ).pending@[i],
            final(self).pending@.last().0 == position,
            final(self).pending@.last().1@ == mesh@,
    {
        self.pending.push((position, mesh));
    }

    /// Apply the pending entity creations: they join the committed set, in
    /// creation order, after the entities already present.
    pub fn maintain(&mut self)
        ensures
            final(self).entities@ == old(self).entities@ + old(self).pending@,
            final(self).pending@.len() == 0,
            final(self).delta_time_bits == old(self).delta_time_bits,
    {
        self.entities.append(&mut self.pending);
    }
}

/// Register the component schemas and the per-frame resources of a fresh
/// scene. Registration has no observable effect beyond an empty store.
pub fn setup_world() -> (w: World)
    ensures
        w.entities@.len() == 0,
        w.pending@.len() == 0,
        w.delta_time_bits == 0,
{
    World::new()
}

/// The identity of the drawable the engine seeds the scene with.
pub open spec fn seed_name() -> Seq<char> {
    "Test"@
}

/// The seeded drawable's vertex data: one triangle, as the IEEE-754 bit
/// patterns of the floats zero, one half and seven tenths.
pub open spec fn seed_vertices() -> Seq<u32> {
    seq![0u32, 0u32, 0u32, 0x3F00_0000u32, 0x3F33_3333u32, 0u32]
}

/// The drawable the engine seeds the scene with.
pub open spec fn seed_mesh() -> MeshModel {
    MeshModel {
        name: seed_name(),
        vertices: seed_vertices(),
        shader_kind: ShaderVariant::NonSkinnedMesh,
    }
}

/// A ready rendering engine: the recorded context, both render paths and the
/// scene. Constructed once by the host, then driven synchronously once per
/// tick; the context and its derived objects are a process-wide singleton
/// resource, so one engine per process.
pub struct Engine {
    pub ctx: GpuContext,
    pub renderer: Renderer,
    pub world: World,
    pub render_system: RenderSystem,
}

impl Engine {
    /// Both render paths are well-formed, their fixed program is present,
    /// and every drawable of the scene — committed or pending — requires a
    /// program that was initialized.
    pub open spec fn wf(self) -> bool {
        &&& self.renderer.wf()
        &&& self.renderer.shader_sys.spec_has(ShaderVariant::NonSkinnedMesh)
        &&& self.render_system.wf()
        &&& self.render_system.shader_sys.spec_has(ShaderVariant::NonSkinnedMesh)
        &&& forall|i: int|
            0 <= i < self.world.entities@.len() ==> self.render_system.shader_sys.spec_has(
                (#[trigger] self.world.entities@[i]).1.shader_kind,
            )
        &&& forall|i: int|
            0 <= i < self.world.pending@.len() ==> self.render_system.shader_sys.spec_has(
                (#[trigger] self.world.pending@[i]).1.shader_kind,
            )
    }

    /// Acquire the engine over a context with the reported capabilities:
    /// compile and link the shader programs of both render paths and look up
    /// the required vertex-array extension. Construction fails — returning
    /// the first error met and no engine, before any drawable is created —
    /// exactly when a capability is missing.
    pub fn new(caps: GpuCaps) -> (r: Result<Engine, EngineError>)
        ensures
            r is Ok <==> (caps.shaders_compile && caps.programs_link && caps.vao_extension),
            r matches Ok(engine) ==> {
                &&& engine.wf()
                &&& engine.ctx.caps == caps
                &&& engine.ctx.trace() == system_init_trace() + system_init_trace()
                &&& engine.render_system.shader_sys.active_program == ShaderVariant::NonSkinnedMesh
                &&& engine.render_system.vao_ext.view_entries() == Seq::<(Seq<char>, usize)>::empty()
                &&& engine.world.entities@.len() == 0
                &&& engine.world.pending@.len() == 0
                &&& engine.world.delta_time_bits == 0
            },
            r matches Err(e) ==> e == construction_error(caps),
    {
        let mut ctx = GpuContext::new(caps);
        let renderer = match Renderer::new(&mut ctx) {
            Ok(rd) => rd,
            Err(e) => {
                return Err(e);
            },
        };
        let world = setup_world();
        let render_system = match RenderSystem::new(&mut ctx) {
            Ok(sys) => sys,
            Err(e) => {
                return Err(e);
            },
        };
        proof {
            assert(ctx.trace() =~= system_init_trace() + system_init_trace());
        }
        Ok(Engine { ctx, renderer, world, render_system })
    }

    /// Seed the initial scene: one drawable entity bearing the test triangle
    /// and a position at the origin, pending until the next maintenance
    /// step.
    pub fn start(&mut self) -> (r: Result<(), EngineError>)
        requires
            old(self).wf(),
        ensures
            r is Ok,
            final(self).wf(),
            final(self).ctx == old(self).ctx,
            final(self).renderer == old(self).renderer,
            final(self).render_system == old(self).render_system,
            final(self).world.entities == old(self).world.entities,
            final(self).world.delta_time_bits == old(self).world.delta_time_bits,
            final(self).world.pending@.len() == old(self).world.pending@.len() + 1,
            forall|i: int|
                0 <= i < old(self).world.pending@.len() ==> final(self).world.pending@[i] == old(
                    self,
                ).world.pending@[i],
            final(self).world.pending@.last().0 == (Position { x_bits: 0, y_bits: 0 }),
            final(self).world.pending@.last().1@ == seed_mesh(),
    {
        let vertices: Vec<u32> = vec![0u32, 0u32, 0u32, 0x3F00_0000u32, 0x3F33_3333u32, 0u32];
        proof {
            assert(vertices@ =~= seed_vertices());
        }
        let mesh = Mesh::new("Test".to_owned(), vertices, ShaderVariant::NonSkinnedMesh);
        self.world.create_entity(Position { x_bits: 0, y_bits: 0 }, mesh);
        Ok(())
    }

    /// Record the host-reported time delta for this tick (the IEEE-754 bit
    /// pattern of a 32-bit float), for the camera and animation
    /// collaborators. No GPU interaction.
    pub fn update(&mut self, dt_bits: u32)
        ensures
            final(self).ctx == old(self).ctx,
            final(self).renderer == old(self).renderer,
            final(self).render_system == old(self).render_system,
            final(self).world.entities == old(self).world.entities,
            final(self).world.pending == old(self).world.pending,
            final(self).world.delta_time_bits == dt_bits,
            old(self).wf() ==> final(self).wf(),
    {
        self.world.delta_time_bits = dt_bits;
    }

    /// One tick's rendering: a full render pass over the committed drawable
    /// set, then the scene-store maintenance step that applies pending
    /// entity creations.
    pub fn render(&mut self)
        requires
            old(self).wf(),
        ensures
            final(self).wf(),
            final(self).ctx.caps == old(self).ctx.caps,
            final(self).renderer == old(self).renderer,
            final(self).render_system.shader_sys.non_skinned == old(
                self,
            ).render_system.shader_sys.non_skinned,
            final(self).render_system.shader_sys.skinned == old(
                self,
            ).render_system.shader_sys.skinned,
            final(self).world.entities@ == old(self).world.entities@ + old(self).world.pending@,
            final(self).world.pending@.len() == 0,
            final(self).world.delta_time_bits == old(self).world.delta_time_bits,
            final(self).render_system.pass_state(final(self).ctx) == frame(
                old(self).render_system.pass_state(old(self).ctx),
                meshes_view(old(self).world.entities@),
                500,
                500,
            ),
    {
        self.render_system.run(&mut self.ctx, &self.world.entities);
        self.world.maintain();
        proof {
            let entities = final(self).world.entities@;
            let olde = old(self).world.entities@;
            let oldp = old(self).world.pending@;
            assert forall|i: int|
                0 <= i < entities.len() implies final(self).render_system.shader_sys.spec_has(
                (#[trigger] entities[i]).1.shader_kind,
            ) by {
                if i < olde.len() {
                    assert(entities[i] == olde[i]);
                } else {
                    assert(entities[i] == oldp[i - olde.len()]);
                }
            }
        }
    }

    /// The calls recorded against the context so far, oldest first.
    pub fn commands(&self) -> (r: &Vec<GpuCommand>)
        ensures
            r@ == self.ctx.log@,
    {
        &self.ctx.log
    }

    /// Hand the recorded calls to the host for replay and start a fresh
    /// record. The handed-over list carries the whole trace so far.
    pub fn take_commands(&mut self) -> (r: Vec<GpuCommand>)
        ensures
            r@ == old(self).ctx.log@,
            Seq::new(r@.len(), |i: int| r@[i]@) == old(self).ctx.trace(),
            final(self).ctx.trace() == Seq::<Cmd>::empty(),
            final(self).ctx.caps == old(self).ctx.caps,
            final(self).renderer == old(self).renderer,
            final(self).render_system == old(self).render_system,
            final(self).world == old(self).world,
            old(self).wf() ==> final(self).wf(),
    {
        let mut out: Vec<GpuCommand> = Vec::new();
        core::mem::swap(&mut out, &mut self.ctx.log);
        proof {
            assert(final(self).ctx.trace() =~= Seq::<Cmd>::empty());
            assert(Seq::new(out@.len(), |i: int| out@[i]@) =~= old(self).ctx.trace());
        }
        out
    }
}

} // verus!
