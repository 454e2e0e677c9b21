//! The mathematical model of one render pass.
//!
//! A pass is a fold over the drawable set, in scene iteration order. Its
//! state is the variant whose program is bound, the vertex-array cache, and
//! the trace of calls issued so far; each drawable first ensures its program
//! is bound, then that its geometry is uploaded and bound, then draws.

use vstd::prelude::*;

use crate::cache::cache_find;
use crate::gpu::{Cmd, ShaderVariant};

verus! {

/// The mathematical value of a drawable: its stable identity, its vertex
/// data as IEEE-754 bit patterns, and the program variant it requires.
#[verifier::ext_equal]
pub struct MeshModel {
    pub name: Seq<char>,
    pub vertices: Seq<u32>,
    pub shader_kind: ShaderVariant,
}

/// The state a render pass threads through the drawable set.
#[verifier::ext_equal]
pub struct PassState {
    /// The variant whose program is bound on the context.
    pub active: ShaderVariant,
    /// The vertex-array cache: mesh identity to handle, in creation order.
    pub vaos: Seq<(Seq<char>, usize)>,
    /// The calls issued so far.
    pub trace: Seq<Cmd>,
}

/// Number of floats per vertex in the fixed attribute layout: a single
/// two-component position attribute.
pub const POSITION_COMPONENTS: usize = 2;

/// The attribute name of the vertex position in the embedded shader sources.
pub open spec fn position_attribute() -> Seq<char> {
    "a_position"@
}

/// Ensure the drawable's program is bound: a no-op if it is the active one,
/// one bind call otherwise.
pub open spec fn activate_step(s: PassState, kind: ShaderVariant) -> PassState {
    if s.active == kind {
        s
    } else {
        PassState {
            active: kind,
            trace: s.trace.push(Cmd::BindProgram { variant: kind }),
            ..s
        }
    }
}

/// The calls that first use of a mesh identity issues: create and bind a
/// fresh vertex array, then describe and upload the vertex data into it.
pub open spec fn upload_cmds(kind: ShaderVariant, vao: usize, vertices: Seq<u32>) -> Seq<Cmd> {
    seq![
        Cmd::CreateVao { vao },
        Cmd::BindVao { vao },
        Cmd::EnableAttribute { variant: kind, name: position_attribute() },
        Cmd::UploadVertexData { components: POSITION_COMPONENTS, floats: vertices },
    ]
}

/// Ensure the mesh's geometry is on the GPU and bound: a cached identity is
/// rebound with no re-upload; a new identity gets the next dense handle, a
/// single upload, and a cache entry.
pub open spec fn prepare_step(s: PassState, m: MeshModel) -> PassState {
    match cache_find(s.vaos, m.name) {
        Some(h) => PassState { trace: s.trace.push(Cmd::BindVao { vao: h }), ..s },
        None => {
            let h = s.vaos.len() as usize;
            PassState {
                vaos: s.vaos.push((m.name, h)),
                trace: s.trace + upload_cmds(m.shader_kind, h, m.vertices),
                ..s
            }
        },
    }
}

/// Issue the mesh's triangle-list draw call over its uploaded vertex range.
pub open spec fn draw_step(s: PassState, m: MeshModel) -> PassState {
    PassState {
        trace: s.trace.push(
            Cmd::DrawTriangles {
                first: 0,
                count: (m.vertices.len() / POSITION_COMPONENTS as nat) as usize,
            },
        ),
        ..s
    }
}

/// One drawable's slice of the pass: program, geometry, draw.
pub open spec fn entity_step(s: PassState, m: MeshModel) -> PassState {
    draw_step(prepare_step(activate_step(s, m.shader_kind), m), m)
}

/// The pass body: fold [`entity_step`] over the drawables in iteration order.
pub open spec fn run_pass(s: PassState, ms: Seq<MeshModel>) -> PassState
    decreases ms.len(),
{
    if ms.len() == 0 {
        s
    } else {
        run_pass(entity_step(s, ms[0]), ms.subrange(1, ms.len() as int))
    }
}

/// A full frame: clear the buffers and set the viewport — always, even over
/// an empty drawable set — then run the pass body.
pub open spec fn frame(s: PassState, ms: Seq<MeshModel>, width: i32, height: i32) -> PassState {
    run_pass(
        PassState {
            trace: s.trace + seq![
                Cmd::ClearColorAndDepth,
                Cmd::SetViewport { x: 0, y: 0, width, height },
            ],
            ..s
        },
        ms,
    )
}

/// Folding over one more drawable is one more step: the form a loop over the
/// drawable set grows its prefix in.
pub proof fn lemma_run_pass_snoc(s: PassState, ms: Seq<MeshModel>, i: int)
    requires
        0 <= i < ms.len(),
    ensures
        run_pass(s, ms.subrange(0, i + 1)) == entity_step(run_pass(s, ms.subrange(0, i)), ms[i]),
    decreases i,
{
    let pre = ms.subrange(0, i + 1);
    if i == 0 {
        assert(pre.subrange(1, pre.len() as int) =~= Seq::<MeshModel>::empty());
        assert(ms.subrange(0, 0) =~= Seq::<MeshModel>::empty());
        assert(run_pass(s, pre) == run_pass(entity_step(s, ms[0]), pre.subrange(1, 1)));
    } else {
        let tail = ms.subrange(1, ms.len() as int);
        lemma_run_pass_snoc(entity_step(s, ms[0]), tail, i - 1);
        assert(pre[0] == ms[0]);
        assert(pre.subrange(1, pre.len() as int) =~= tail.subrange(0, i));
        assert(ms.subrange(0, i).subrange(1, i) =~= tail.subrange(0, i - 1));
        assert(ms.subrange(0, i)[0] == ms[0]);
        assert(run_pass(s, ms.subrange(0, i)) == run_pass(
            entity_step(s, ms[0]),
            tail.subrange(0, i - 1),
        ));
        assert(tail[i - 1] == ms[i]);
    }
}

} // verus!
