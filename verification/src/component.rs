//! The drawable component and the per-frame render system.
//!
//! A [`Mesh`] is the component a drawable entity bears: immutable vertex data
//! under a stable identity, plus the shader variant it requires. The
//! [`RenderSystem`] walks the drawable set once per frame: it clears the
//! target, sets the viewport, and for each drawable binds its program,
//! ensures its geometry is uploaded and bound — paying the upload cost
//! exactly once per distinct identity for the process lifetime — and issues
//! its draw call.

use vstd::prelude::*;
use vstd::slice::slice_to_vec;

use crate::cache::{
    cache_lookup, lemma_cache_find_push_same, lemma_cache_miss_no_key, VaoExtension,
};
use crate::gpu::{Cmd, EngineError, GpuCommand, GpuContext, ShaderVariant};
use crate::pass::{
    entity_step, frame, lemma_run_pass_snoc, run_pass, MeshModel, PassState, POSITION_COMPONENTS,
};
use crate::shader::{store_init_trace, WebShader, WebShaderSystem};

verus! {

/// A 2D placement component, read by the render pass to compute a model
/// transform (a pass-through in the current layout). The coordinates are
/// IEEE-754 bit patterns of 32-bit floats; the host does the float
/// arithmetic.
#[derive(Clone, Copy, Debug, PartialEq, Eq, Structural)]
pub struct Position {
    pub x_bits: u32,
    pub y_bits: u32,
}

/// The drawable component: vertex data under a stable identity, and the
/// shader variant that draws it. The render pass only reads it.
pub struct Mesh {
    pub name: String,
    /// IEEE-754 bit patterns of the 32-bit float vertex data, two components
    /// per vertex.
    pub vertices: Vec<u32>,
    pub shader_kind: ShaderVariant,
}

impl View for Mesh {
    type V = MeshModel;

    open spec fn view(&self) -> MeshModel {
        MeshModel { name: self.name@, vertices: self.vertices@, shader_kind: self.shader_kind }
    }
}

impl Mesh {
    pub fn new(name: String, vertices: Vec<u32>, shader_kind: ShaderVariant) -> (m: Mesh)
        ensures
            m@ == (MeshModel { name: name@, vertices: vertices@, shader_kind }),
    {
        Mesh { name, vertices, shader_kind }
    }

    /// The shader variant this mesh requires.
    pub fn shader_kind(&self) -> (kind: ShaderVariant)
        ensures
            kind == self.shader_kind,
    {
        self.shader_kind
    }

    /// Describe this mesh's attribute layout to the GPU against the given
    /// program and upload its vertex data: a single two-component float
    /// position attribute.
    pub fn buffer_attributes(&self, ctx: &mut GpuContext, shader: &WebShader)
        ensures
            final(ctx).caps == old(ctx).caps,
            final(ctx).trace() == old(ctx).trace() + seq![
                Cmd::EnableAttribute { variant: shader.kind, name: "a_position"@ },
                Cmd::UploadVertexData { components: POSITION_COMPONENTS, floats: self.vertices@ },
            ],
    {
        ctx.record(
            GpuCommand::EnableAttribute { variant: shader.kind, name: "a_position".to_owned() },
        );
        Mesh::buffer_f32_data(ctx, self.vertices.as_slice(), POSITION_COMPONENTS);
        proof {
            assert(final(ctx).trace() =~= old(ctx).trace() + seq![
                Cmd::EnableAttribute { variant: shader.kind, name: "a_position"@ },
                Cmd::UploadVertexData { components: POSITION_COMPONENTS, floats: self.vertices@ },
            ]);
        }
    }

    /// Issue this mesh's draw call: a triangle list over its uploaded vertex
    /// range.
    pub fn render(&self, ctx: &mut GpuContext)
        ensures
            final(ctx).caps == old(ctx).caps,
            final(ctx).trace() == old(ctx).trace().push(
                Cmd::DrawTriangles {
                    first: 0,
                    count: (self.vertices@.len() / POSITION_COMPONENTS as nat) as usize,
                },
            ),
    {
        let count = self.vertices.len() / POSITION_COMPONENTS;
        ctx.record(GpuCommand::DrawTriangles { first: 0, count });
    }

    /// Upload float vertex data (as bit patterns) into a fresh buffer bound
    /// to the current vertex array, `size` floats per vertex.
    pub fn buffer_f32_data(ctx: &mut GpuContext, data: &[u32], size: usize)
        ensures
            final(ctx).caps == old(ctx).caps,
            final(ctx).trace() == old(ctx).trace().push(
                Cmd::UploadVertexData { components: size, floats: data@ },
            ),
    {
        let floats = slice_to_vec(data);
        ctx.record(GpuCommand::UploadVertexData { components: size, floats });
    }

    /// Upload byte-valued attribute data into a fresh buffer bound to the
    /// current vertex array, `size` bytes per vertex.
    pub fn buffer_u8_data(ctx: &mut GpuContext, data: &[u8], size: usize)
        ensures
            final(ctx).caps == old(ctx).caps,
            final(ctx).trace() == old(ctx).trace().push(
                Cmd::UploadByteData { components: size, bytes: data@ },
            ),
    {
        let bytes = slice_to_vec(data);
        ctx.record(GpuCommand::UploadByteData { components: size, bytes });
    }

    /// Upload an index buffer for indexed drawing.
    pub fn buffer_u16_indices(ctx: &mut GpuContext, indices: &[u16])
        ensures
            final(ctx).caps == old(ctx).caps,
            final(ctx).trace() == old(ctx).trace().push(
                Cmd::UploadIndexData { indices: indices@ },
            ),
    {
        let idx = slice_to_vec(indices);
        ctx.record(GpuCommand::UploadIndexData { indices: idx });
    }
}

/// The drawables of a scene, as mathematical values, in iteration order.
pub open spec fn meshes_view(entities: Seq<(Position, Mesh)>) -> Seq<MeshModel> {
    Seq::new(entities.len(), |i: int| entities[i].1@)
}

/// The calls a render system issues while constructing: initialize the
/// program store, then look up the required vertex-array extension.
pub open spec fn system_init_trace() -> Seq<Cmd> {
    store_init_trace().push(Cmd::GetVaoExtension)
}

/// The per-frame render pass: the program store and the vertex-array cache,
/// walked over the scene's drawables once per frame.
pub struct RenderSystem {
    pub vao_ext: VaoExtension,
    pub shader_sys: WebShaderSystem,
}

impl RenderSystem {
    pub open spec fn wf(self) -> bool {
        self.shader_sys.wf() && self.vao_ext.wf()
    }

    /// The pass state this system and the context are in.
    pub open spec fn pass_state(self, ctx: GpuContext) -> PassState {
        PassState {
            active: self.shader_sys.active_program,
            vaos: self.vao_ext.view_entries(),
            trace: ctx.trace(),
        }
    }

    /// Construct the render system on the context: compile and link the
    /// fixed program set, bind the initial program, and look up the
    /// vertex-array extension. Fails exactly when compilation, linking or
    /// the extension lookup fails, with no system returned.
    pub fn new(ctx: &mut GpuContext) -> (r: Result<RenderSystem, EngineError>)
        ensures
            final(ctx).caps == old(ctx).caps,
            r is Ok <==> (old(ctx).caps.shaders_compile && old(ctx).caps.programs_link && old(
                ctx,
            ).caps.vao_extension),
            r matches Ok(sys) ==> {
                &&& sys.wf()
                &&& sys.shader_sys.active_program == ShaderVariant::NonSkinnedMesh
                &&& sys.shader_sys.spec_has(ShaderVariant::NonSkinnedMesh)
                &&& !sys.shader_sys.spec_has(ShaderVariant::SkinnedMesh)
                &&& sys.vao_ext.view_entries() == Seq::<(Seq<char>, usize)>::empty()
                &&& final(ctx).trace() == old(ctx).trace() + system_init_trace()
            },
            r matches Err(e) ==> e == construction_error(old(ctx).caps),
    {
        let shader_sys = match WebShaderSystem::new(ctx) {
            Ok(sys) => sys,
            Err(e) => {
                return Err(e);
            },
        };
        match ctx.get_vao_extension() {
            Ok(()) => (),
            Err(e) => {
                return Err(e);
            },
        }
        let vao_ext = VaoExtension::new();
        proof {
            assert(final(ctx).trace() =~= old(ctx).trace() + system_init_trace());
        }
        Ok(RenderSystem { vao_ext, shader_sys })
    }

    /// Ensure the mesh's geometry is on the GPU and bound: rebind the cached
    /// vertex array if its identity was seen before — with no re-upload —
    /// and otherwise create one, upload the vertex data into it once, and
    /// cache it under the identity.
    pub fn prepare_for_render(&mut self, ctx: &mut GpuContext, mesh: &Mesh)
        requires
            old(self).wf(),
            old(self).shader_sys.spec_has(mesh.shader_kind),
        ensures
            final(self).wf(),
            final(self).shader_sys == old(self).shader_sys,
            final(ctx).caps == old(ctx).caps,
            ({
                let s1 = crate::pass::prepare_step(old(self).pass_state(*old(ctx)), mesh@);
                final(self).vao_ext.view_entries() == s1.vaos && final(ctx).trace() == s1.trace
            }),
    {
        let ghost entries = self.vao_ext.view_entries();
        match cache_lookup(&self.vao_ext.vaos, &mesh.name) {
            Some(vao) => {
                self.bind_vao(ctx, vao);
            },
            None => {
                let vao = self.create_vao(ctx);
                self.bind_vao(ctx, vao);
                let shader = match self.shader_sys.get_shader(&mesh.shader_kind) {
                    Some(sh) => sh,
                    None => vstd::pervasive::unreached(),
                };
                mesh.buffer_attributes(ctx, shader);
                self.vao_ext.vaos.push((mesh.name.clone(), vao));
                proof {
                    assert(self.vao_ext.view_entries() =~= entries.push((mesh.name@, vao)));
                    lemma_cache_miss_no_key(entries, mesh.name@);
                    lemma_cache_find_push_same(entries, mesh.name@, vao);
                    let s1 = crate::pass::prepare_step(old(self).pass_state(*old(ctx)), mesh@);
                    assert(final(ctx).trace() =~= s1.trace);
                }
            },
        }
    }

    /// Create a fresh vertex-array object through the extension; its handle
    /// is the next dense cache index.
    pub fn create_vao(&self, ctx: &mut GpuContext) -> (vao: usize)
        ensures
            vao == self.vao_ext.view_entries().len(),
            final(ctx).caps == old(ctx).caps,
            final(ctx).trace() == old(ctx).trace().push(Cmd::CreateVao { vao }),
    {
        let vao = self.vao_ext.vaos.len();
        ctx.record(GpuCommand::CreateVao { vao });
        vao
    }

    /// Bind a vertex-array object through the extension.
    pub fn bind_vao(&self, ctx: &mut GpuContext, vao: usize)
        ensures
            final(ctx).caps == old(ctx).caps,
            final(ctx).trace() == old(ctx).trace().push(Cmd::BindVao { vao }),
    {
        ctx.record(GpuCommand::BindVao { vao });
    }

    /// One full render pass over the scene's drawables: clear the buffers
    /// and set the viewport — always, even over an empty set — then, per
    /// drawable in iteration order, bind its program (a no-op when already
    /// bound), ensure its geometry, and draw.
    pub fn run(&mut self, ctx: &mut GpuContext, entities: &Vec<(Position, Mesh)>)
        requires
            old(self).wf(),
            forall|i: int|
                0 <= i < entities@.len() ==> old(self).shader_sys.spec_has(
                    (#[trigger] entities@[i]).1.shader_kind,
                ),
        ensures
            final(self).wf(),
            final(self).shader_sys.non_skinned == old(self).shader_sys.non_skinned,
            final(self).shader_sys.skinned == old(self).shader_sys.skinned,
            final(ctx).caps == old(ctx).caps,
            final(self).pass_state(*final(ctx)) == frame(
                old(self).pass_state(*old(ctx)),
                meshes_view(entities@),
                500,
                500,
            ),
    {
        let ghost ms = meshes_view(entities@);
        let ghost s_begin = self.pass_state(*ctx);
        ctx.record(GpuCommand::ClearColorAndDepth);
        ctx.record(GpuCommand::SetViewport { x: 0, y: 0, width: 500, height: 500 });
        let ghost s0 = self.pass_state(*ctx);
        proof {
            assert(s0.trace =~= s_begin.trace + seq![
                Cmd::ClearColorAndDepth,
                Cmd::SetViewport { x: 0, y: 0, width: 500, height: 500 },
            ]);
            assert(s0 =~= (PassState {
                trace: s_begin.trace + seq![
                    Cmd::ClearColorAndDepth,
                    Cmd::SetViewport { x: 0, y: 0, width: 500, height: 500 },
                ],
                ..s_begin
            }));
            assert(ms.subrange(0, 0) =~= Seq::<MeshModel>::empty());
        }
        let n = entities.len();
        let mut i: usize = 0;
        while i < n
            invariant
                0 <= i <= n,
                n == entities@.len(),
                ms == meshes_view(entities@),
                self.wf(),
                self.shader_sys.non_skinned == old(self).shader_sys.non_skinned,
                self.shader_sys.skinned == old(self).shader_sys.skinned,
                ctx.caps == old(ctx).caps,
                forall|j: int|
                    0 <= j < entities@.len() ==> self.shader_sys.spec_has(
                        (#[trigger] entities@[j]).1.shader_kind,
                    ),
                self.pass_state(*ctx) == run_pass(s0, ms.subrange(0, i as int)),
            decreases n - i,
        {
            let mesh = &entities[i].1;
            let ghost s_pre = self.pass_state(*ctx);
            let kind = mesh.shader_kind();
            self.shader_sys.use_program(ctx, kind);
            self.prepare_for_render(ctx, mesh);
            mesh.render(ctx);
            proof {
                lemma_run_pass_snoc(s0, ms, i as int);
                assert(ms[i as int] == mesh@);
                assert(self.pass_state(*ctx) =~= entity_step(s_pre, mesh@));
            }
            i = i + 1;
        }
        proof {
            assert(ms.subrange(0, n as int) =~= ms);
        }
    }
}

/// The construction error the reported capabilities force: compilation is
/// attempted first, then linking, then the extension lookup; the first
/// missing capability decides.
pub open spec fn construction_error(caps: crate::gpu::GpuCaps) -> EngineError {
    if !caps.shaders_compile {
        EngineError::ShaderCompileFailed {
            variant: ShaderVariant::NonSkinnedMesh,
            stage: crate::gpu::ShaderStage::Vertex,
        }
    } else if !caps.programs_link {
        EngineError::ProgramLinkFailed { variant: ShaderVariant::NonSkinnedMesh }
    } else {
        EngineError::MissingVaoExtension
    }
}

} // verus!
