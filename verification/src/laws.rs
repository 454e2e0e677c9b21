//! The laws of the pipeline, proved over the pass and resolution models that
//! the executable functions' contracts are stated in.

use vstd::prelude::*;

use crate::cache::{
    cache_find, cache_wf, lemma_cache_find_push_other, lemma_cache_find_push_same,
};
use crate::gpu::{Cmd, ShaderVariant};
use crate::pass::{
    activate_step, draw_step, entity_step, frame, prepare_step, run_pass, upload_cmds, MeshModel,
    PassState,
};
use crate::shader::{resolve_step, ShaderModel};

verus! {

/// Geometry upload is idempotent per identity: preparing two distinct
/// identities and then the first again uploads each exactly once — the
/// third call only rebinds the first identity's vertex array — and the two
/// identities get distinct handles.
pub proof fn lemma_upload_once_per_identity(s: PassState, d1: MeshModel, d2: MeshModel)
    requires
        cache_wf(s.vaos),
        s.vaos.len() + 1 <= usize::MAX,
        d1.name != d2.name,
        cache_find(s.vaos, d1.name) is None,
        cache_find(s.vaos, d2.name) is None,
    ensures
        ({
            let h1 = s.vaos.len() as usize;
            let h2 = (s.vaos.len() + 1) as usize;
            let s1 = prepare_step(s, d1);
            let s2 = prepare_step(s1, d2);
            let s3 = prepare_step(s2, d1);
            &&& s1.trace == s.trace + upload_cmds(d1.shader_kind, h1, d1.vertices)
            &&& s2.trace == s1.trace + upload_cmds(d2.shader_kind, h2, d2.vertices)
            &&& s3.trace == s2.trace.push(Cmd::BindVao { vao: h1 })
            &&& s3.vaos == s2.vaos
            &&& h1 != h2
        }),
{
    let h1 = s.vaos.len() as usize;
    let s1 = prepare_step(s, d1);
    lemma_cache_find_push_other(s.vaos, d1.name, h1, d2.name);
    let h2 = (s.vaos.len() + 1) as usize;
    let s2 = prepare_step(s1, d2);
    lemma_cache_find_push_same(s.vaos, d1.name, h1);
    lemma_cache_find_push_other(s1.vaos, d2.name, h2, d1.name);
}

/// Activating the same variant twice in succession issues exactly one
/// program bind when it was not active, and none when it was; the second
/// activation changes nothing at all.
pub proof fn lemma_activate_binds_once(s: PassState, v: ShaderVariant)
    ensures
        ({
            let s1 = activate_step(s, v);
            let s2 = activate_step(s1, v);
            &&& s2 == s1
            &&& s.active != v ==> s1.trace == s.trace.push(Cmd::BindProgram { variant: v })
            &&& s.active == v ==> s1.trace == s.trace
        }),
{
}

/// A frame over an empty drawable set still clears the buffers and sets the
/// viewport, exactly once each, and touches nothing else.
pub proof fn lemma_empty_frame_clears(s: PassState, width: i32, height: i32)
    ensures
        ({
            let s1 = frame(s, Seq::<MeshModel>::empty(), width, height);
            &&& s1.trace == s.trace + seq![
                Cmd::ClearColorAndDepth,
                Cmd::SetViewport { x: 0, y: 0, width, height },
            ]
            &&& s1.active == s.active
            &&& s1.vaos == s.vaos
        }),
{
}

/// A frame over two drawables with distinct, unseen identities but one
/// shader variant binds that variant's program exactly once and creates,
/// uploads and draws the two distinct geometries once each, in iteration
/// order.
pub proof fn lemma_shared_variant_frame(
    s: PassState,
    d1: MeshModel,
    d2: MeshModel,
    width: i32,
    height: i32,
)
    requires
        cache_wf(s.vaos),
        s.vaos.len() + 1 <= usize::MAX,
        d1.vertices.len() <= usize::MAX,
        d2.vertices.len() <= usize::MAX,
        d1.name != d2.name,
        d1.shader_kind == d2.shader_kind,
        s.active != d1.shader_kind,
        cache_find(s.vaos, d1.name) is None,
        cache_find(s.vaos, d2.name) is None,
    ensures
        ({
            let v = d1.shader_kind;
            let h1 = s.vaos.len() as usize;
            let h2 = (s.vaos.len() + 1) as usize;
            let s1 = frame(s, seq![d1, d2], width, height);
            &&& s1.trace == s.trace + seq![
                Cmd::ClearColorAndDepth,
                Cmd::SetViewport { x: 0, y: 0, width, height },
            ] + seq![Cmd::BindProgram { variant: v }] + upload_cmds(v, h1, d1.vertices) + seq![
                Cmd::DrawTriangles {
                    first: 0,
                    count: (d1.vertices.len() / 2) as usize,
                },
            ] + upload_cmds(v, h2, d2.vertices) + seq![
                Cmd::DrawTriangles {
                    first: 0,
                    count: (d2.vertices.len() / 2) as usize,
                },
            ]
            &&& s1.active == v
            &&& h1 != h2
        }),
{
    let v = d1.shader_kind;
    let h1 = s.vaos.len() as usize;
    let h2 = (s.vaos.len() + 1) as usize;
    let ms = seq![d1, d2];
    let s_cleared = PassState {
        trace: s.trace + seq![
            Cmd::ClearColorAndDepth,
            Cmd::SetViewport { x: 0, y: 0, width, height },
        ],
        ..s
    };
    let tail = ms.subrange(1, 2);
    assert(ms[0] == d1);
    assert(tail[0] == d2);
    assert(tail.subrange(1, 1) =~= Seq::<MeshModel>::empty());
    assert(frame(s, ms, width, height) == run_pass(s_cleared, ms));
    assert(run_pass(s_cleared, ms) == run_pass(entity_step(s_cleared, d1), tail));
    assert(run_pass(entity_step(s_cleared, d1), tail) == run_pass(
        entity_step(entity_step(s_cleared, d1), d2),
        tail.subrange(1, 1),
    ));
    assert(run_pass(entity_step(entity_step(s_cleared, d1), d2), tail.subrange(1, 1))
        == entity_step(entity_step(s_cleared, d1), d2));
    let sa1 = activate_step(s_cleared, v);
    let sp1 = prepare_step(sa1, d1);
    let sd1 = draw_step(sp1, d1);
    let sa2 = activate_step(sd1, v);
    lemma_cache_find_push_other(s.vaos, d1.name, h1, d2.name);
    let sp2 = prepare_step(sa2, d2);
    let sd2 = draw_step(sp2, d2);
    assert(sd2.trace =~= s.trace + seq![
        Cmd::ClearColorAndDepth,
        Cmd::SetViewport { x: 0, y: 0, width, height },
    ] + seq![Cmd::BindProgram { variant: v }] + upload_cmds(v, h1, d1.vertices) + seq![
        Cmd::DrawTriangles {
            first: 0,
            count: (d1.vertices.len() / 2) as usize,
        },
    ] + upload_cmds(v, h2, d2.vertices) + seq![
        Cmd::DrawTriangles {
            first: 0,
            count: (d2.vertices.len() / 2) as usize,
        },
    ]);
}

/// Resolving the same uniform name twice on one program returns the same
/// cached location both times, and the context is consulted at most once:
/// never on the second call, and on the first only if the name was not
/// already cached.
pub proof fn lemma_uniform_resolved_once(sh: ShaderModel, trace: Seq<Cmd>, name: Seq<char>)
    ensures
        ({
            let step1 = resolve_step(sh, trace, name);
            let step2 = resolve_step(step1.0, step1.1, name);
            &&& step2.2 == step1.2
            &&& step2.0 == step1.0
            &&& step2.1 == step1.1
            &&& cache_find(sh.uniforms, name) is None ==> step1.1 == trace.push(
                Cmd::LookupUniform { variant: sh.kind, name },
            )
            &&& cache_find(sh.uniforms, name) is Some ==> step1.1 == trace
        }),
{
    if cache_find(sh.uniforms, name) is None {
        lemma_cache_find_push_same(sh.uniforms, name, sh.uniforms.len() as usize);
    }
}

} // verus!
