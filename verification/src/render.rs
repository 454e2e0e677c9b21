//! The frame renderer: the older, whole-scene render path.
//!
//! It owns its own program store and vertex-array cache, clears the target
//! and sets the viewport once per frame, and keeps the non-skinned mesh
//! program bound for the meshes of the scene. Staging loaded meshes through
//! this path is an unfinished extension point; the per-entity pass of
//! [`crate::component::RenderSystem::run`] is the one the engine drives.

use vstd::prelude::*;

use crate::cache::{
    cache_find, cache_lookup, lemma_cache_find_push_same, lemma_cache_miss_no_key, VaoExtension,
};
use crate::component::system_init_trace;
use crate::gpu::{Cmd, EngineError, GpuCommand, GpuContext, ShaderVariant};
use crate::shader::WebShaderSystem;

verus! {

/// Staging a mesh identity without uploading data: a cached identity is
/// rebound; a new one gets a fresh vertex array bound and cached under the
/// next dense handle. The pair is the cache and the trace after the call.
pub open spec fn stage_step(
    entries: Seq<(Seq<char>, usize)>,
    trace: Seq<Cmd>,
    key: Seq<char>,
) -> (Seq<(Seq<char>, usize)>, Seq<Cmd>) {
    match cache_find(entries, key) {
        Some(h) => (entries, trace.push(Cmd::BindVao { vao: h })),
        None => {
            let h = entries.len() as usize;
            (
                entries.push((key, h)),
                trace + seq![Cmd::CreateVao { vao: h }, Cmd::BindVao { vao: h }],
            )
        },
    }
}

/// The whole-scene renderer: a program store and a vertex-array cache of its
/// own.
pub struct Renderer {
    pub shader_sys: WebShaderSystem,
    pub vao_ext: VaoExtension,
}

impl Renderer {
    pub open spec fn wf(self) -> bool {
        self.shader_sys.wf() && self.vao_ext.wf()
    }

    /// Construct the renderer on the context: compile and link the fixed
    /// program set, bind the initial program, and look up the vertex-array
    /// extension. Fails exactly when compilation, linking or the extension
    /// lookup fails, with no renderer returned.
    pub fn new(ctx: &mut GpuContext) -> (r: Result<Renderer, EngineError>)
        ensures
            final(ctx).caps == old(ctx).caps,
            r is Ok <==> (old(ctx).caps.shaders_compile && old(ctx).caps.programs_link && old(
                ctx,
            ).caps.vao_extension),
            r matches Ok(rd) ==> {
                &&& rd.wf()
                &&& rd.shader_sys.active_program == ShaderVariant::NonSkinnedMesh
                &&& rd.shader_sys.spec_has(ShaderVariant::NonSkinnedMesh)
                &&& rd.vao_ext.view_entries() == Seq::<(Seq<char>, usize)>::empty()
                &&& final(ctx).trace() == old(ctx).trace() + system_init_trace()
            },
            r matches Err(e) ==> e == crate::component::construction_error(old(ctx).caps),
    {
        let shader_sys = match WebShaderSystem::new(ctx) {
            Ok(sys) => sys,
            Err(e) => {
                return Err(e);
            },
        };
        match ctx.get_vao_extension() {
            Ok(()) => (),
            Err(e) => {
                return Err(e);
            },
        }
        let vao_ext = VaoExtension::new();
        proof {
            assert(final(ctx).trace() =~= old(ctx).trace() + system_init_trace());
        }
        Ok(Renderer { shader_sys, vao_ext })
    }

    /// One whole-scene frame: clear the buffers, set the viewport, and keep
    /// the scene's program bound.
    pub fn render(&mut self, ctx: &mut GpuContext)
        requires
            old(self).wf(),
            old(self).shader_sys.spec_has(ShaderVariant::NonSkinnedMesh),
        ensures
            final(self).wf(),
            final(self).vao_ext == old(self).vao_ext,
            final(self).shader_sys.non_skinned == old(self).shader_sys.non_skinned,
            final(self).shader_sys.skinned == old(self).shader_sys.skinned,
            final(self).shader_sys.active_program == ShaderVariant::NonSkinnedMesh,
            final(ctx).caps == old(ctx).caps,
            final(ctx).trace() == old(ctx).trace() + seq![
                Cmd::ClearColorAndDepth,
                Cmd::SetViewport { x: 0, y: 0, width: 800, height: 800 },
            ] + if old(self).shader_sys.active_program == ShaderVariant::NonSkinnedMesh {
                Seq::<Cmd>::empty()
            } else {
                seq![Cmd::BindProgram { variant: ShaderVariant::NonSkinnedMesh }]
            },
    {
        ctx.record(GpuCommand::ClearColorAndDepth);
        ctx.record(GpuCommand::SetViewport { x: 0, y: 0, width: 800, height: 800 });
        self.render_meshes(ctx);
        proof {
            if old(self).shader_sys.active_program == ShaderVariant::NonSkinnedMesh {
                assert(final(ctx).trace() =~= old(ctx).trace() + seq![
                    Cmd::ClearColorAndDepth,
                    Cmd::SetViewport { x: 0, y: 0, width: 800, height: 800 },
                ] + Seq::<Cmd>::empty());
            } else {
                assert(final(ctx).trace() =~= old(ctx).trace() + seq![
                    Cmd::ClearColorAndDepth,
                    Cmd::SetViewport { x: 0, y: 0, width: 800, height: 800 },
                ] + seq![Cmd::BindProgram { variant: ShaderVariant::NonSkinnedMesh }]);
            }
        }
    }

    /// Stage the scene's meshes: ensure the non-skinned mesh program is
    /// bound. Drawing loaded meshes through this path is an unfinished
    /// extension point.
    pub fn render_meshes(&mut self, ctx: &mut GpuContext)
        requires
            old(self).wf(),
            old(self).shader_sys.spec_has(ShaderVariant::NonSkinnedMesh),
        ensures
            final(self).wf(),
            final(self).vao_ext == old(self).vao_ext,
            final(self).shader_sys.non_skinned == old(self).shader_sys.non_skinned,
            final(self).shader_sys.skinned == old(self).shader_sys.skinned,
            final(self).shader_sys.active_program == ShaderVariant::NonSkinnedMesh,
            final(ctx).caps == old(ctx).caps,
            final(ctx).trace() == if old(self).shader_sys.active_program
                == ShaderVariant::NonSkinnedMesh {
                old(ctx).trace()
            } else {
                old(ctx).trace().push(Cmd::BindProgram { variant: ShaderVariant::NonSkinnedMesh })
            },
    {
        let _non_skinned_shader = match self.shader_sys.get_shader(
            &ShaderVariant::NonSkinnedMesh,
        ) {
            Some(sh) => sh,
            None => vstd::pervasive::unreached(),
        };
        self.shader_sys.use_program(ctx, ShaderVariant::NonSkinnedMesh);
    }

    /// Ensure a vertex array exists and is bound for a mesh identity,
    /// creating and caching one on first use; the vertex data itself is
    /// staged by the caller against the bound array.
    pub fn prepare_for_render(&mut self, ctx: &mut GpuContext, key: &String)
        requires
            old(self).wf(),
        ensures
            final(self).wf(),
            final(self).shader_sys == old(self).shader_sys,
            final(ctx).caps == old(ctx).caps,
            ({
                let step = stage_step(old(self).vao_ext.view_entries(), old(ctx).trace(), key@);
                final(self).vao_ext.view_entries() == step.0 && final(ctx).trace() == step.1
            }),
    {
        let ghost entries = self.vao_ext.view_entries();
        match cache_lookup(&self.vao_ext.vaos, key) {
            Some(vao) => {
                self.bind_vao(ctx, vao);
            },
            None => {
                let vao = self.create_vao(ctx);
                self.bind_vao(ctx, vao);
                self.vao_ext.vaos.push((key.clone(), vao));
                proof {
                    assert(self.vao_ext.view_entries() =~= entries.push((key@, vao)));
                    lemma_cache_miss_no_key(entries, key@);
                    lemma_cache_find_push_same(entries, key@, vao);
                    assert(final(ctx).trace() =~= old(ctx).trace() + seq![
                        Cmd::CreateVao { vao },
                        Cmd::BindVao { vao },
                    ]);
                }
            },
        }
    }

    /// Create a fresh vertex-array object through the extension; its handle
    /// is the next dense cache index.
    pub fn create_vao(&self, ctx: &mut GpuContext) -> (vao: usize)
        ensures
            vao == self.vao_ext.view_entries().len(),
            final(ctx).caps == old(ctx).caps,
            final(ctx).trace() == old(ctx).trace().push(Cmd::CreateVao { vao }),
    {
        let vao = self.vao_ext.vaos.len();
        ctx.record(GpuCommand::CreateVao { vao });
        vao
    }

    /// Bind a vertex-array object through the extension.
    pub fn bind_vao(&self, ctx: &mut GpuContext, vao: usize)
        ensures
            final(ctx).caps == old(ctx).caps,
            final(ctx).trace() == old(ctx).trace().push(Cmd::BindVao { vao }),
    {
        ctx.record(GpuCommand::BindVao { vao });
    }
}

} // verus!
