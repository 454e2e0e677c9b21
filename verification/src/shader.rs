//! Shader program compilation, caching and activation.
//!
//! One program is compiled and linked per entry of the fixed shader-source
//! set at startup; a program, once linked, lives for the process lifetime.
//! Exactly one program is active at any instant, and re-activating the active
//! one is a no-op. Each program lazily caches the locations of its uniforms.

use vstd::prelude::*;

use crate::cache::{
    cache_find, cache_lookup, cache_wf, entries_view, lemma_cache_find_push_same,
    lemma_cache_miss_no_key,
};
use crate::gpu::{Cmd, EngineError, GpuCommand, GpuContext, ShaderStage, ShaderVariant};

verus! {

/// Compile one stage of a variant's program on the context. Fails, with the
/// stage that failed, exactly when the context cannot compile the embedded
/// sources.
pub fn compile_shader(ctx: &mut GpuContext, variant: ShaderVariant, stage: ShaderStage) -> (r:
    Result<(), EngineError>)
    ensures
        final(ctx).caps == old(ctx).caps,
        final(ctx).trace() == old(ctx).trace().push(Cmd::CompileShader { variant, stage }),
        r is Ok <==> old(ctx).caps.shaders_compile,
        !old(ctx).caps.shaders_compile ==> r == Err::<(), EngineError>(
            EngineError::ShaderCompileFailed { variant, stage },
        ),
{
    ctx.record(GpuCommand::CompileShader { variant, stage });
    if ctx.caps.shaders_compile {
        Ok(())
    } else {
        Err(EngineError::ShaderCompileFailed { variant, stage })
    }
}

/// Link the compiled stages of a variant into a program on the context.
/// Fails exactly when the context cannot link them.
pub fn link_program(ctx: &mut GpuContext, variant: ShaderVariant) -> (r: Result<(), EngineError>)
    ensures
        final(ctx).caps == old(ctx).caps,
        final(ctx).trace() == old(ctx).trace().push(Cmd::LinkProgram { variant }),
        r is Ok <==> old(ctx).caps.programs_link,
        !old(ctx).caps.programs_link ==> r == Err::<(), EngineError>(
            EngineError::ProgramLinkFailed { variant },
        ),
{
    ctx.record(GpuCommand::LinkProgram { variant });
    if ctx.caps.programs_link {
        Ok(())
    } else {
        Err(EngineError::ProgramLinkFailed { variant })
    }
}

/// The mathematical value of a linked program: its variant and its uniform
/// cache, in resolution order.
#[verifier::ext_equal]
pub struct ShaderModel {
    pub kind: ShaderVariant,
    pub uniforms: Seq<(Seq<char>, usize)>,
}

/// A linked GPU program together with its cache of resolved uniform
/// locations. A location, once resolved, is immutable for the program's
/// lifetime; locations are assigned densely, in resolution order.
pub struct WebShader {
    pub kind: ShaderVariant,
    pub uniforms: Vec<(String, usize)>,
}

impl View for WebShader {
    type V = ShaderModel;

    open spec fn view(&self) -> ShaderModel {
        ShaderModel { kind: self.kind, uniforms: entries_view(self.uniforms@) }
    }
}

/// Resolving a uniform: a cache hit returns the cached location and touches
/// nothing; a miss looks the name up on the context once and caches the
/// result. The triple is the program, the trace and the location after the
/// call.
pub open spec fn resolve_step(sh: ShaderModel, trace: Seq<Cmd>, name: Seq<char>) -> (
    ShaderModel,
    Seq<Cmd>,
    usize,
) {
    match cache_find(sh.uniforms, name) {
        Some(loc) => (sh, trace, loc),
        None => {
            let loc = sh.uniforms.len() as usize;
            (
                ShaderModel { kind: sh.kind, uniforms: sh.uniforms.push((name, loc)) },
                trace.push(Cmd::LookupUniform { variant: sh.kind, name }),
                loc,
            )
        },
    }
}

impl WebShader {
    /// The uniform cache is well-formed: distinct names, dense locations.
    pub open spec fn wf(self) -> bool {
        cache_wf(self@.uniforms)
    }

    /// Compile and link one variant's program. The program starts with an
    /// empty uniform cache. Fails exactly when a stage fails to compile
    /// (vertex first) or the program fails to link.
    pub fn new(ctx: &mut GpuContext, variant: ShaderVariant) -> (r: Result<WebShader, EngineError>)
        ensures
            final(ctx).caps == old(ctx).caps,
            r is Ok <==> (old(ctx).caps.shaders_compile && old(ctx).caps.programs_link),
            r matches Ok(sh) ==> {
                &&& sh@ == (ShaderModel { kind: variant, uniforms: Seq::empty() })
                &&& sh.wf()
                &&& final(ctx).trace() == old(ctx).trace() + seq![
                    Cmd::CompileShader { variant, stage: ShaderStage::Vertex },
                    Cmd::CompileShader { variant, stage: ShaderStage::Fragment },
                    Cmd::LinkProgram { variant },
                ]
            },
            !old(ctx).caps.shaders_compile ==> {
                &&& r == Err::<WebShader, EngineError>(EngineError::ShaderCompileFailed {
                    variant,
                    stage: ShaderStage::Vertex,
                })
                &&& final(ctx).trace() == old(ctx).trace().push(Cmd::CompileShader {
                    variant,
                    stage: ShaderStage::Vertex,
                })
            },
            old(ctx).caps.shaders_compile && !old(ctx).caps.programs_link ==> r == Err::<
                WebShader,
                EngineError,
            >(EngineError::ProgramLinkFailed { variant }),
    {
        match compile_shader(ctx, variant, ShaderStage::Vertex) {
            Ok(()) => (),
            Err(e) => {
                return Err(e);
            },
        }
        match compile_shader(ctx, variant, ShaderStage::Fragment) {
            Ok(()) => (),
            Err(e) => {
                return Err(e);
            },
        }
        match link_program(ctx, variant) {
            Ok(()) => (),
            Err(e) => {
                return Err(e);
            },
        }
        let sh = WebShader { kind: variant, uniforms: Vec::new() };
        proof {
            assert(sh@.uniforms =~= Seq::<(Seq<char>, usize)>::empty());
            assert(final(ctx).trace() =~= old(ctx).trace() + seq![
                Cmd::CompileShader { variant, stage: ShaderStage::Vertex },
                Cmd::CompileShader { variant, stage: ShaderStage::Fragment },
                Cmd::LinkProgram { variant },
            ]);
        }
        Ok(sh)
    }

    /// Resolve a uniform's location on this program, looking it up on the
    /// context only on the first request per name; later requests are cache
    /// hits and touch the context not at all. Whether a name exists in the
    /// linked program only the real context knows: the host's replay of the
    /// lookup fails fatally on a missing name, a content error with no
    /// runtime recovery.
    pub fn get_uniform_location(&mut self, ctx: &mut GpuContext, name: &str) -> (r: Option<usize>)
        requires
            old(self).wf(),
        ensures
            final(self).wf(),
            final(ctx).caps == old(ctx).caps,
            ({
                let step = resolve_step(old(self)@, old(ctx).trace(), name@);
                &&& final(self)@ == step.0
                &&& final(ctx).trace() == step.1
                &&& r == Some(step.2)
            }),
    {
        let key: String = name.to_owned();
        let ghost model = self@.uniforms;
        match cache_lookup(&self.uniforms, &key) {
            Some(loc) => Some(loc),
            None => {
                let loc = self.uniforms.len();
                ctx.record(GpuCommand::LookupUniform { variant: self.kind, name: key.clone() });
                self.uniforms.push((key, loc));
                proof {
                    assert(self@.uniforms =~= model.push((name@, loc)));
                    lemma_cache_miss_no_key(model, name@);
                    lemma_cache_find_push_same(model, name@, loc);
                }
                Some(loc)
            },
        }
    }
}

/// The store of linked programs, one per initialized shader variant, and the
/// variant whose program is currently bound on the context.
pub struct WebShaderSystem {
    pub non_skinned: Option<WebShader>,
    pub skinned: Option<WebShader>,
    pub active_program: ShaderVariant,
}

impl WebShaderSystem {
    /// The stored program of a variant, if that variant was initialized.
    pub open spec fn spec_program(self, kind: ShaderVariant) -> Option<WebShader> {
        match kind {
            ShaderVariant::NonSkinnedMesh => self.non_skinned,
            ShaderVariant::SkinnedMesh => self.skinned,
        }
    }

    /// Whether a variant's program was compiled at initialization.
    pub open spec fn spec_has(self, kind: ShaderVariant) -> bool {
        self.spec_program(kind) is Some
    }

    /// Each stored program is tagged with its own variant and its uniform
    /// cache is well-formed.
    pub open spec fn wf(self) -> bool {
        &&& self.non_skinned matches Some(sh) ==> sh.kind == ShaderVariant::NonSkinnedMesh
            && sh.wf()
        &&& self.skinned matches Some(sh) ==> sh.kind == ShaderVariant::SkinnedMesh && sh.wf()
    }

    /// Compile and link the fixed shader-source set — the non-skinned mesh
    /// program — and bind it as the initially active one. Fails exactly when
    /// compilation or linking fails, with no store returned.
    pub fn new(ctx: &mut GpuContext) -> (r: Result<WebShaderSystem, EngineError>)
        ensures
            final(ctx).caps == old(ctx).caps,
            r is Ok <==> (old(ctx).caps.shaders_compile && old(ctx).caps.programs_link),
            r matches Ok(sys) ==> {
                &&& sys.wf()
                &&& sys.non_skinned matches Some(sh) && sh@ == (ShaderModel {
                    kind: ShaderVariant::NonSkinnedMesh,
                    uniforms: Seq::empty(),
                })
                &&& sys.skinned is None
                &&& sys.active_program == ShaderVariant::NonSkinnedMesh
                &&& final(ctx).trace() == old(ctx).trace() + store_init_trace()
            },
            !old(ctx).caps.shaders_compile ==> r == Err::<WebShaderSystem, EngineError>(
                EngineError::ShaderCompileFailed {
                    variant: ShaderVariant::NonSkinnedMesh,
                    stage: ShaderStage::Vertex,
                },
            ),
            old(ctx).caps.shaders_compile && !old(ctx).caps.programs_link ==> r == Err::<
                WebShaderSystem,
                EngineError,
            >(EngineError::ProgramLinkFailed { variant: ShaderVariant::NonSkinnedMesh }),
    {
        let non_skinned_shader = match WebShader::new(ctx, ShaderVariant::NonSkinnedMesh) {
            Ok(sh) => sh,
            Err(e) => {
                return Err(e);
            },
        };
        ctx.record(GpuCommand::BindProgram { variant: ShaderVariant::NonSkinnedMesh });
        let sys = WebShaderSystem {
            non_skinned: Some(non_skinned_shader),
            skinned: None,
            active_program: ShaderVariant::NonSkinnedMesh,
        };
        proof {
            assert(final(ctx).trace() =~= old(ctx).trace() + store_init_trace());
        }
        Ok(sys)
    }

    /// The cached program of a variant; `None` exactly when the variant was
    /// not initialized (a programming error, not a runtime condition).
    pub fn get_shader(&self, shader_kind: &ShaderVariant) -> (r: Option<&WebShader>)
        ensures
            r is Some <==> self.spec_has(*shader_kind),
            r matches Some(sh) ==> Some(*sh) == self.spec_program(*shader_kind),
    {
        match shader_kind {
            ShaderVariant::NonSkinnedMesh => self.non_skinned.as_ref(),
            ShaderVariant::SkinnedMesh => self.skinned.as_ref(),
        }
    }

    /// Bind the program of `shader_kind` on the context, unless it is the
    /// active one already: then nothing is issued. Callers must have
    /// initialized the variant.
    pub fn use_program(&mut self, ctx: &mut GpuContext, shader_kind: ShaderVariant)
        requires
            old(self).spec_has(shader_kind),
        ensures
            final(self).non_skinned == old(self).non_skinned,
            final(self).skinned == old(self).skinned,
            final(self).active_program == shader_kind,
            final(ctx).caps == old(ctx).caps,
            final(ctx).trace() == if old(self).active_program == shader_kind {
                old(ctx).trace()
            } else {
                old(ctx).trace().push(Cmd::BindProgram { variant: shader_kind })
            },
    {
        if self.active_program == shader_kind {
            return ;
        }
        ctx.record(GpuCommand::BindProgram { variant: shader_kind });
        self.active_program = shader_kind;
    }
}

/// The calls a program store makes while initializing: compile both stages of
/// the fixed source set, link, and bind the result as the active program.
pub open spec fn store_init_trace() -> Seq<Cmd> {
    seq![
        Cmd::CompileShader {
            variant: ShaderVariant::NonSkinnedMesh,
            stage: ShaderStage::Vertex,
        },
        Cmd::CompileShader {
            variant: ShaderVariant::NonSkinnedMesh,
            stage: ShaderStage::Fragment,
        },
        Cmd::LinkProgram { variant: ShaderVariant::NonSkinnedMesh },
        Cmd::BindProgram { variant: ShaderVariant::NonSkinnedMesh },
    ]
}

} // verus!
