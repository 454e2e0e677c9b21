//! Model of the host-owned rendering context.
//!
//! The real context lives in the host (a browser canvas); the library never
//! touches it directly. Instead, every GPU call the pipeline decides to make
//! is recorded as a [`GpuCommand`] in a [`GpuContext`], together with the
//! capabilities the host reported when it acquired the real context. The host
//! replays the recorded commands against the real context once per frame.
//!
//! Object handles (vertex arrays, uniform locations) are assigned densely by
//! the caches that create them; the host keeps a table from each handle to
//! the real GPU object it created during replay.

use vstd::prelude::*;

verus! {

/// The closed set of shader programs a drawable can require.
#[derive(Clone, Copy, Debug, PartialEq, Eq, Structural)]
pub enum ShaderVariant {
    NonSkinnedMesh,
    SkinnedMesh,
}

/// The two stages that are compiled and linked into one program.
#[derive(Clone, Copy, Debug, PartialEq, Eq, Structural)]
pub enum ShaderStage {
    Vertex,
    Fragment,
}

/// What the host found when it acquired the rendering context: whether the
/// vertex-array extension is present and whether the embedded shader sources
/// compile and link on its GPU.
#[derive(Clone, Copy, Debug, PartialEq, Eq, Structural)]
pub struct GpuCaps {
    pub vao_extension: bool,
    pub shaders_compile: bool,
    pub programs_link: bool,
}

/// A fatal pipeline error: construction and lookup failures abort, there is
/// no runtime recovery path.
#[derive(Clone, Copy, Debug, PartialEq, Eq, Structural)]
pub enum EngineError {
    /// The optional vertex-array-object extension is missing from the context.
    MissingVaoExtension,
    /// A shader stage failed to compile.
    ShaderCompileFailed { variant: ShaderVariant, stage: ShaderStage },
    /// A compiled program failed to link.
    ProgramLinkFailed { variant: ShaderVariant },
}

/// One GPU call, recorded for the host to replay.
#[derive(Debug, PartialEq, Eq)]
pub enum GpuCommand {
    /// Clear the colour and depth buffers to the fixed background colour.
    ClearColorAndDepth,
    SetViewport { x: i32, y: i32, width: i32, height: i32 },
    CompileShader { variant: ShaderVariant, stage: ShaderStage },
    LinkProgram { variant: ShaderVariant },
    /// Make the linked program of this variant the active one.
    BindProgram { variant: ShaderVariant },
    /// Look up the vertex-array extension on the context.
    GetVaoExtension,
    CreateVao { vao: usize },
    BindVao { vao: usize },
    /// Enable a vertex attribute of the program, by name.
    EnableAttribute { variant: ShaderVariant, name: String },
    /// Upload vertex data (IEEE-754 bit patterns of 32-bit floats) into a
    /// fresh buffer bound to the current vertex array, described as
    /// `components` floats per vertex.
    UploadVertexData { components: usize, floats: Vec<u32> },
    /// Upload byte-valued attribute data, `components` bytes per vertex.
    UploadByteData { components: usize, bytes: Vec<u8> },
    /// Upload an index buffer for indexed drawing.
    UploadIndexData { indices: Vec<u16> },
    /// Resolve a uniform's location on the linked program of this variant.
    LookupUniform { variant: ShaderVariant, name: String },
    /// Issue a triangle-list draw call over `count` vertices.
    DrawTriangles { first: usize, count: usize },
}

/// The mathematical value of one recorded command.
#[verifier::ext_equal]
pub enum Cmd {
    ClearColorAndDepth,
    SetViewport { x: i32, y: i32, width: i32, height: i32 },
    CompileShader { variant: ShaderVariant, stage: ShaderStage },
    LinkProgram { variant: ShaderVariant },
    BindProgram { variant: ShaderVariant },
    GetVaoExtension,
    CreateVao { vao: usize },
    BindVao { vao: usize },
    EnableAttribute { variant: ShaderVariant, name: Seq<char> },
    UploadVertexData { components: usize, floats: Seq<u32> },
    UploadByteData { components: usize, bytes: Seq<u8> },
    UploadIndexData { indices: Seq<u16> },
    LookupUniform { variant: ShaderVariant, name: Seq<char> },
    DrawTriangles { first: usize, count: usize },
}

impl View for GpuCommand {
    type V = Cmd;

    open spec fn view(&self) -> Cmd {
        match self {
            GpuCommand::ClearColorAndDepth => Cmd::ClearColorAndDepth,
            GpuCommand::SetViewport { x, y, width, height } => Cmd::SetViewport {
                x: *x,
                y: *y,
                width: *width,
                height: *height,
            },
            GpuCommand::CompileShader { variant, stage } => Cmd::CompileShader {
                variant: *variant,
                stage: *stage,
            },
            GpuCommand::LinkProgram { variant } => Cmd::LinkProgram { variant: *variant },
            GpuCommand::BindProgram { variant } => Cmd::BindProgram { variant: *variant },
            GpuCommand::GetVaoExtension => Cmd::GetVaoExtension,
            GpuCommand::CreateVao { vao } => Cmd::CreateVao { vao: *vao },
            GpuCommand::BindVao { vao } => Cmd::BindVao { vao: *vao },
            GpuCommand::EnableAttribute { variant, name } => Cmd::EnableAttribute {
                variant: *variant,
                name: name@,
            },
            GpuCommand::UploadVertexData { components, floats } => Cmd::UploadVertexData {
                components: *components,
                floats: floats@,
            },
            GpuCommand::UploadByteData { components, bytes } => Cmd::UploadByteData {
                components: *components,
                bytes: bytes@,
            },
            GpuCommand::UploadIndexData { indices } => Cmd::UploadIndexData { indices: indices@ },
            GpuCommand::LookupUniform { variant, name } => Cmd::LookupUniform {
                variant: *variant,
                name: name@,
            },
            GpuCommand::DrawTriangles { first, count } => Cmd::DrawTriangles {
                first: *first,
                count: *count,
            },
        }
    }
}

/// The process-wide rendering context, as the library sees it: the reported
/// capabilities of the real context and the calls issued against it so far.
pub struct GpuContext {
    pub caps: GpuCaps,
    pub log: Vec<GpuCommand>,
}

impl GpuContext {
    /// The recorded calls, as mathematical values, oldest first.
    pub open spec fn trace(self) -> Seq<Cmd> {
        Seq::new(self.log@.len(), |i: int| self.log@[i]@)
    }

    /// A fresh context with the capabilities the host reported.
    pub fn new(caps: GpuCaps) -> (ctx: GpuContext)
        ensures
            ctx.caps == caps,
            ctx.trace() == Seq::<Cmd>::empty(),
    {
        let ctx = GpuContext { caps, log: Vec::new() };
        proof {
            assert(ctx.trace() =~= Seq::<Cmd>::empty());
        }
        ctx
    }

    /// Record one call against the context.
    pub fn record(&mut self, cmd: GpuCommand)
        ensures
            final(self).caps == old(self).caps,
            final(self).trace() == old(self).trace().push(cmd@),
    {
        let ghost c = cmd@;
        self.log.push(cmd);
        proof {
            assert(self.trace() =~= old(self).trace().push(c));
        }
    }

    /// Look the vertex-array extension up on the context; it is required,
    /// and its absence is a fatal construction error.
    pub fn get_vao_extension(&mut self) -> (r: Result<(), EngineError>)
        ensures
            final(self).caps == old(self).caps,
            final(self).trace() == old(self).trace().push(Cmd::GetVaoExtension),
            r is Ok <==> old(self).caps.vao_extension,
            !old(self).caps.vao_extension ==> r == Err::<(), EngineError>(
                EngineError::MissingVaoExtension,
            ),
    {
        self.record(GpuCommand::GetVaoExtension);
        if self.caps.vao_extension {
            Ok(())
        } else {
            Err(EngineError::MissingVaoExtension)
        }
    }
}

} // verus!
