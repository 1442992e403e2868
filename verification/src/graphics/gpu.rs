//! The vocabulary between the engine and the graphics context.
//!
//! The engine never touches the GPU. An operation that needs it is a small
//! state machine: it hands out one command at a time, the owner of the
//! context performs the command and hands back the reply, and the machine
//! answers with the next command or with the operation's result.

use vstd::prelude::*;
use crate::graphics::errors::GfxError;

verus! {

/// The two stages of a shader program.
#[derive(Debug, Clone, Copy, PartialEq, Eq)]
pub enum ShaderStage {
    Vertex,
    Fragment,
}

/// Which of the caller's buffers a command uploads.
#[derive(Debug, Clone, Copy, PartialEq, Eq)]
pub enum BufferSource {
    Vertices,
    Indices,
}

/// One call on the graphics context.
#[derive(Debug, Clone, Copy, PartialEq, Eq)]
pub enum GpuCommand {
    /// Reads and clears the context's error flag. Answered by a code.
    GetError,
    /// Reads the texture bound to the 2D target. Answered by a handle.
    GetTextureBinding,
    /// Creates a texture object. Answered by a handle.
    CreateTexture,
    /// Binds a texture to the 2D target, or unbinds.
    BindTexture(Option<u32>),
    /// Allocates RGBA8 storage for mip level zero of the bound texture,
    /// without data.
    AllocateTexture { width: u32, height: u32 },
    /// Sets an integer parameter of the bound texture.
    TextureParameter { name: u32, value: u32 },
    /// Uploads the caller's RGBA8 bytes into a region of the bound texture.
    UploadTexture { x: u32, y: u32, width: u32, height: u32 },
    /// Deletes a texture object.
    DeleteTexture(u32),
    /// Creates a program object. Answered by a handle.
    CreateProgram,
    /// Creates a shader object of a stage. Answered by a handle.
    CreateShader(ShaderStage),
    /// Hands the caller's source text of a stage to a shader object.
    ShaderSource { shader: u32, stage: ShaderStage },
    /// Compiles a shader object.
    CompileShader(u32),
    /// Whether the shader object compiled. Answered by a flag.
    GetCompileStatus(u32),
    /// The driver's diagnostics for a shader object. Answered by a text.
    GetShaderInfoLog(u32),
    /// Attaches a shader object to a program.
    AttachShader { program: u32, shader: u32 },
    /// Links a program.
    LinkProgram(u32),
    /// Whether the program linked. Answered by a flag.
    GetLinkStatus(u32),
    /// The driver's diagnostics for a program. Answered by a text.
    GetProgramInfoLog(u32),
    /// Detaches a shader object from a program.
    DetachShader { program: u32, shader: u32 },
    /// Deletes a shader object.
    DeleteShader(u32),
    /// Deletes a program object.
    DeleteProgram(u32),
    /// Makes a program current, or none.
    UseProgram(Option<u32>),
    /// Creates a vertex array object. Answered by a handle.
    CreateVertexArray,
    /// Binds a vertex array object, or unbinds.
    BindVertexArray(Option<u32>),
    /// Creates a buffer object. Answered by a handle.
    CreateBuffer,
    /// Binds a buffer object to a target, or unbinds.
    BindBuffer { target: u32, buffer: Option<u32> },
    /// Allocates the buffer bound to the target and fills it from one of the
    /// caller's buffers, with a usage hint.
    BufferData { target: u32, source: BufferSource, usage: u32 },
    /// Overwrites the start of the buffer bound to the target with the
    /// vertices or indices of a run of sprites.
    BufferSprites { target: u32, source: BufferSource, first: usize, count: usize },
    /// Enables a vertex attribute.
    EnableVertexAttribArray(u32),
    /// Describes a vertex attribute of floating point components in the
    /// bound array buffer.
    VertexAttribPointer { location: u32, components: i32, stride: i32, offset: i32 },
    /// Deletes a vertex array object.
    DeleteVertexArray(u32),
    /// Sets the clear colour, one byte per channel, and clears the colour
    /// buffer.
    ClearScreen { r: u8, g: u8, b: u8, a: u8 },
    /// Maps normalised device coordinates to a surface of the given size.
    Viewport { width: u32, height: u32 },
    /// Sets the two-component uniform at the location to the surface size.
    UniformCanvasSize { location: u32, width: u32, height: u32 },
    /// Sets the matrix uniform at the location to the caller's transform.
    UniformTransform { location: u32 },
    /// Maps the sampler uniform at the location to a texture unit.
    UniformSampler { location: u32, unit: i32 },
    /// Selects a texture unit by its enumerant.
    ActiveTexture(u32),
    /// Draws triangles from the bound element buffer of 16 bit indices.
    DrawElements { count: usize },
}

/// What kind of reply a command is answered with.
#[derive(Debug, Clone, Copy, PartialEq, Eq)]
pub enum ReplyKind {
    Nothing,
    Handle,
    Code,
    Flag,
    Text,
}

/// The answer of the graphics context to one command.
#[derive(Debug, Clone, PartialEq, Eq)]
pub enum GpuReply {
    /// The command returns nothing.
    Nothing,
    /// The handle of a created or queried object.
    Handle(u32),
    /// An error code; zero for no error.
    Code(u32),
    /// A status.
    Flag(bool),
    /// A diagnostic text.
    Text(String),
}

/// What an operation asks for next.
#[derive(Debug)]
pub enum GpuStep<T> {
    /// Perform this command and hand its reply to the next call.
    Call(GpuCommand),
    /// The operation is over; no further command follows.
    Finished(Result<T, GfxError>),
}

impl GpuCommand {
    /// The kind of reply that answers the command.
    pub open spec fn reply_kind(self) -> ReplyKind {
        match self {
            GpuCommand::GetError => ReplyKind::Code,
            GpuCommand::GetTextureBinding
            | GpuCommand::CreateTexture
            | GpuCommand::CreateProgram
            | GpuCommand::CreateShader(_)
            | GpuCommand::CreateVertexArray
            | GpuCommand::CreateBuffer => ReplyKind::Handle,
            GpuCommand::GetCompileStatus(_) | GpuCommand::GetLinkStatus(_) => ReplyKind::Flag,
            GpuCommand::GetShaderInfoLog(_) | GpuCommand::GetProgramInfoLog(_) => ReplyKind::Text,
            _ => ReplyKind::Nothing,
        }
    }

    /// The kind of reply that the context owner must hand back.
    pub fn expects(&self) -> (kind: ReplyKind)
        ensures
            kind == self.reply_kind(),
    {
        match self {
            GpuCommand::GetError => ReplyKind::Code,
            GpuCommand::GetTextureBinding
            | GpuCommand::CreateTexture
            | GpuCommand::CreateProgram
            | GpuCommand::CreateShader(_)
            | GpuCommand::CreateVertexArray
            | GpuCommand::CreateBuffer => ReplyKind::Handle,
            GpuCommand::GetCompileStatus(_) | GpuCommand::GetLinkStatus(_) => ReplyKind::Flag,
            GpuCommand::GetShaderInfoLog(_) | GpuCommand::GetProgramInfoLog(_) => ReplyKind::Text,
            _ => ReplyKind::Nothing,
        }
    }
}

impl GpuReply {
    /// The kind of the reply.
    pub open spec fn kind(self) -> ReplyKind {
        match self {
            GpuReply::Nothing => ReplyKind::Nothing,
            GpuReply::Handle(_) => ReplyKind::Handle,
            GpuReply::Code(_) => ReplyKind::Code,
            GpuReply::Flag(_) => ReplyKind::Flag,
            GpuReply::Text(_) => ReplyKind::Text,
        }
    }
}

} // verus!
