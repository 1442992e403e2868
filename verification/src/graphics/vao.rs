//! Vertex array object

use vstd::prelude::*;
use crate::graphics::device::Destroy;
use crate::graphics::errors::GfxError;
use crate::graphics::gl;
use crate::graphics::gpu::{BufferSource, GpuCommand, GpuReply, GpuStep, ReplyKind};

verus! {

/// Memory hint to how frequently the data will be accessed.
#[derive(Debug, Clone, Copy, PartialEq, Eq)]
pub enum UsageFrequency {
    /// Data store modified once then used a few times.
    Stream,
    /// Data store modified once then used multiple times.
    Static,
    /// Data store modified repeatedly and used many times.
    Dynamic,
}

/// Memory hint to the nature of the memory access.
#[derive(Debug, Clone, Copy, PartialEq, Eq)]
pub enum UsageNature {
    /// Data store will be modified by the application and used
    /// as a source for drawing.
    Draw,
    /// Data store is modified by reading information from OpenGL,
    /// and return it to the application.
    Read,
    /// Data store is modified by reading information from OpenGL,
    /// and used as a source for drawing.
    Copy,
}

/// Where the attributes of one vertex lie in the interleaved vertex data,
/// in bytes.
#[derive(Debug, Clone, Copy, PartialEq, Eq)]
pub struct VertexLayout {
    /// Bytes from one vertex to the next.
    pub stride: i32,
    /// Offset of the two position components.
    pub position: i32,
    /// Offset of the two texture coordinates.
    pub uv: i32,
    /// Offset of the four colour components.
    pub color: i32,
}

/// Attribute location of the position in the sprite shader.
pub const POSITION_LOC: u32 = 0;

/// Attribute location of the texture coordinates in the sprite shader.
pub const UV_LOC: u32 = 1;

/// Attribute location of the colour in the sprite shader.
pub const COLOR_LOC: u32 = 2;

/// The OpenGL usage enumerant of two memory hints.
pub open spec fn usage_hint(frequency: UsageFrequency, nature: UsageNature) -> u32 {
    match (frequency, nature) {
        (UsageFrequency::Stream, UsageNature::Draw) => gl::STREAM_DRAW,
        (UsageFrequency::Stream, UsageNature::Read) => gl::STREAM_READ,
        (UsageFrequency::Stream, UsageNature::Copy) => gl::STREAM_COPY,
        (UsageFrequency::Static, UsageNature::Draw) => gl::STATIC_DRAW,
        (UsageFrequency::Static, UsageNature::Read) => gl::STATIC_READ,
        (UsageFrequency::Static, UsageNature::Copy) => gl::STATIC_COPY,
        (UsageFrequency::Dynamic, UsageNature::Draw) => gl::DYNAMIC_DRAW,
        (UsageFrequency::Dynamic, UsageNature::Read) => gl::DYNAMIC_READ,
        (UsageFrequency::Dynamic, UsageNature::Copy) => gl::DYNAMIC_COPY,
    }
}

/// The commands that create a vertex array object with an interleaved
/// vertex buffer and an index buffer, once the driver has named the three
/// handles.
pub open spec fn create_commands(
    layout: VertexLayout,
    usage: u32,
    vao: u32,
    vertex_buffer: u32,
    index_buffer: u32,
) -> Seq<GpuCommand> {
    seq![
        GpuCommand::CreateVertexArray,
        GpuCommand::BindVertexArray(Some(vao)),
        GpuCommand::CreateBuffer,
        GpuCommand::BindBuffer { target: gl::ARRAY_BUFFER, buffer: Some(vertex_buffer) },
        GpuCommand::BufferData { target: gl::ARRAY_BUFFER, source: BufferSource::Vertices, usage },
        GpuCommand::GetError,
        GpuCommand::EnableVertexAttribArray(POSITION_LOC),
        GpuCommand::VertexAttribPointer {
            location: POSITION_LOC,
            components: 2,
            stride: layout.stride,
            offset: layout.position,
        },
        GpuCommand::GetError,
        GpuCommand::EnableVertexAttribArray(UV_LOC),
        GpuCommand::VertexAttribPointer {
            location: UV_LOC,
            components: 2,
            stride: layout.stride,
            offset: layout.uv,
        },
        GpuCommand::GetError,
        GpuCommand::EnableVertexAttribArray(COLOR_LOC),
        GpuCommand::VertexAttribPointer {
            location: COLOR_LOC,
            components: 4,
            stride: layout.stride,
            offset: layout.color,
        },
        GpuCommand::GetError,
        GpuCommand::CreateBuffer,
        GpuCommand::BindBuffer { target: gl::ELEMENT_ARRAY_BUFFER, buffer: Some(index_buffer) },
        GpuCommand::BufferData {
            target: gl::ELEMENT_ARRAY_BUFFER,
            source: BufferSource::Indices,
            usage,
        },
        GpuCommand::GetError,
        GpuCommand::BindBuffer { target: gl::ARRAY_BUFFER, buffer: None },
        GpuCommand::BindVertexArray(None),
    ]
}

/// Handle to a vertex array object located in video memory.
///
/// Contains standard buffer attachments determined by the
/// needs of the game engine.
#[derive(Debug, Clone, Copy, PartialEq, Eq)]
pub struct VertexArrayObject {
    vao: u32,
    vertex_buffer: u32,
    index_buffer: u32,
    /// Maximum number of elements that can be drawn, ie. total index count.
    size: usize,
}

impl VertexArrayObject {
    /// The GPU object.
    pub closed spec fn raw(self) -> u32 {
        self.vao
    }

    /// The vertex buffer and the index buffer.
    pub closed spec fn buffers(self) -> (u32, u32) {
        (self.vertex_buffer, self.index_buffer)
    }

    /// The number of indices.
    pub closed spec fn index_count(self) -> nat {
        self.size as nat
    }

    /// Begins the allocation of a vertex array object in video memory,
    /// along with the buffers used by the game engine. The vertex data
    /// stays with the caller; its layout and the indices are given here.
    pub fn create(
        layout: VertexLayout,
        indices: &[u16],
        freq: UsageFrequency,
        nature: UsageNature,
    ) -> (pending: VaoCreate)
        ensures
            pending.stage() == 0,
            pending.layout() == layout,
            pending.usage() == usage_hint(freq, nature),
            pending.index_count() == indices@.len(),
    {
        VaoCreate {
            layout,
            usage: Self::mem_hint(freq, nature),
            size: indices.len(),
            vao: 0,
            vertex_buffer: 0,
            index_buffer: 0,
            stage: 0,
        }
    }

    /// Map two memory hint enums to an OpenGL enum.
    pub fn mem_hint(frequency: UsageFrequency, nature: UsageNature) -> (hint: u32)
        ensures
            hint == usage_hint(frequency, nature),
    {
        match (frequency, nature) {
            (UsageFrequency::Stream, UsageNature::Draw) => gl::STREAM_DRAW,
            (UsageFrequency::Stream, UsageNature::Read) => gl::STREAM_READ,
            (UsageFrequency::Stream, UsageNature::Copy) => gl::STREAM_COPY,
            (UsageFrequency::Static, UsageNature::Draw) => gl::STATIC_DRAW,
            (UsageFrequency::Static, UsageNature::Read) => gl::STATIC_READ,
            (UsageFrequency::Static, UsageNature::Copy) => gl::STATIC_COPY,
            (UsageFrequency::Dynamic, UsageNature::Draw) => gl::DYNAMIC_DRAW,
            (UsageFrequency::Dynamic, UsageNature::Read) => gl::DYNAMIC_READ,
            (UsageFrequency::Dynamic, UsageNature::Copy) => gl::DYNAMIC_COPY,
        }
    }

    pub fn handle(&self) -> (vao: u32)
        ensures
            vao == self.raw(),
    {
        self.vao
    }

    pub fn len(&self) -> (n: usize)
        ensures
            n == self.index_count(),
    {
        self.size
    }

    pub fn is_empty(&self) -> (r: bool)
        ensures
            r == (self.index_count() == 0),
    {
        self.size == 0
    }

    pub fn vertex_buf_handle(&self) -> (buffer: u32)
        ensures
            buffer == self.buffers().0,
    {
        self.vertex_buffer
    }

    pub fn index_buf_handle(&self) -> (buffer: u32)
        ensures
            buffer == self.buffers().1,
    {
        self.index_buffer
    }

    /// The message that the owner of the object queues when it lets go.
    pub fn destroy_message(&self) -> (message: Destroy)
        ensures
            message == Destroy::VertexArray(self.raw()),
    {
        Destroy::VertexArray(self.vao)
    }
}

/// The creation of a vertex array object in progress.
#[derive(Debug)]
pub struct VaoCreate {
    layout: VertexLayout,
    usage: u32,
    size: usize,
    vao: u32,
    vertex_buffer: u32,
    index_buffer: u32,
    stage: u8,
}

impl VaoCreate {
    /// The number of commands handed out so far; one more once the creation
    /// is finished.
    pub closed spec fn stage(self) -> nat {
        self.stage as nat
    }

    pub closed spec fn layout(self) -> VertexLayout {
        self.layout
    }

    /// The usage enumerant of both buffers.
    pub closed spec fn usage(self) -> u32 {
        self.usage
    }

    /// The number of indices.
    pub closed spec fn index_count(self) -> nat {
        self.size as nat
    }

    /// The handles that the driver named for the vertex array object, the
    /// vertex buffer and the index buffer; zero before it did.
    pub closed spec fn handles(self) -> (u32, u32, u32) {
        (self.vao, self.vertex_buffer, self.index_buffer)
    }

    /// The commands of this creation.
    pub open spec fn commands(self) -> Seq<GpuCommand> {
        create_commands(
            self.layout(),
            self.usage(),
            self.handles().0,
            self.handles().1,
            self.handles().2,
        )
    }

    /// Whether the result was given out.
    pub open spec fn finished(self) -> bool {
        self.stage() > self.commands().len()
    }

    /// Whether `reply` answers the command handed out last; before the
    /// first command there is nothing to answer.
    pub open spec fn accepts(self, reply: GpuReply) -> bool {
        &&& !self.finished()
        &&& reply.kind() == if self.stage() == 0 {
            ReplyKind::Nothing
        } else {
            self.commands()[self.stage() - 1].reply_kind()
        }
    }

    /// Takes the reply to the previous command and gives the next step.
    ///
    /// The commands of `create_commands` are handed out in order. A reported
    /// error code ends the creation at once with that code; the objects
    /// created until then are left to the driver. After the last command
    /// the vertex array object is handed out.
    pub fn advance(&mut self, reply: GpuReply) -> (step: GpuStep<VertexArrayObject>)
        requires
            old(self).accepts(reply),
        ensures
            final(self).layout() == old(self).layout(),
            final(self).usage() == old(self).usage(),
            final(self).index_count() == old(self).index_count(),
            match step {
                GpuStep::Call(command) => {
                    &&& !(reply matches GpuReply::Code(code) && code != gl::NO_ERROR)
                    &&& old(self).stage() < final(self).commands().len()
                    &&& command == final(self).commands()[old(self).stage() as int]
                    &&& final(self).stage() == old(self).stage() + 1
                    &&& final(self).handles() == (
                        if old(self).stage() == 1 {
                            reply->Handle_0
                        } else {
                            old(self).handles().0
                        },
                        if old(self).stage() == 3 {
                            reply->Handle_0
                        } else {
                            old(self).handles().1
                        },
                        if old(self).stage() == 16 {
                            reply->Handle_0
                        } else {
                            old(self).handles().2
                        },
                    )
                },
                GpuStep::Finished(Ok(object)) => {
                    &&& old(self).stage() == old(self).commands().len()
                    &&& object.raw() == old(self).handles().0
                    &&& object.buffers() == (old(self).handles().1, old(self).handles().2)
                    &&& object.index_count() == old(self).index_count()
                    &&& final(self).finished()
                },
                GpuStep::Finished(Err(e)) => {
                    &&& reply matches GpuReply::Code(code) && code != gl::NO_ERROR
                        && e == GfxError::OpenGl(code)
                    &&& final(self).finished()
                },
            },
    {
        let stage = self.stage;
        match reply {
            GpuReply::Handle(handle) => {
                if stage == 1 {
                    self.vao = handle;
                } else if stage == 3 {
                    self.vertex_buffer = handle;
                } else if stage == 16 {
                    self.index_buffer = handle;
                }
            },
            GpuReply::Code(code) => {
                if code != gl::NO_ERROR {
                    self.stage = 22;
                    return GpuStep::Finished(Err(GfxError::OpenGl(code)));
                }
            },
            _ => {},
        }
        if stage >= 21 {
            self.stage = 22;
            return GpuStep::Finished(
                Ok(
                    VertexArrayObject {
                        vao: self.vao,
                        vertex_buffer: self.vertex_buffer,
                        index_buffer: self.index_buffer,
                        size: self.size,
                    },
                ),
            );
        }
        self.stage = stage + 1;
        let layout = self.layout;
        let usage = self.usage;
        let command = if stage == 0 {
            GpuCommand::CreateVertexArray
        } else if stage == 1 {
            GpuCommand::BindVertexArray(Some(self.vao))
        } else if stage == 2 || stage == 15 {
            GpuCommand::CreateBuffer
        } else if stage == 3 {
            GpuCommand::BindBuffer { target: gl::ARRAY_BUFFER, buffer: Some(self.vertex_buffer) }
        } else if stage == 4 {
            GpuCommand::BufferData {
                target: gl::ARRAY_BUFFER,
                source: BufferSource::Vertices,
                usage,
            }
        } else if stage == 5 || stage == 8 || stage == 11 || stage == 14 || stage == 18 {
            GpuCommand::GetError
        } else if stage == 6 {
            GpuCommand::EnableVertexAttribArray(POSITION_LOC)
        } else if stage == 7 {
            GpuCommand::VertexAttribPointer {
                location: POSITION_LOC,
                components: 2,
                stride: layout.stride,
                offset: layout.position,
            }
        } else if stage == 9 {
            GpuCommand::EnableVertexAttribArray(UV_LOC)
        } else if stage == 10 {
            GpuCommand::VertexAttribPointer {
                location: UV_LOC,
                components: 2,
                stride: layout.stride,
                offset: layout.uv,
            }
        } else if stage == 12 {
            GpuCommand::EnableVertexAttribArray(COLOR_LOC)
        } else if stage == 13 {
            GpuCommand::VertexAttribPointer {
                location: COLOR_LOC,
                components: 4,
                stride: layout.stride,
                offset: layout.color,
            }
        } else if stage == 16 {
            GpuCommand::BindBuffer {
                target: gl::ELEMENT_ARRAY_BUFFER,
                buffer: Some(self.index_buffer),
            }
        } else if stage == 17 {
            GpuCommand::BufferData {
                target: gl::ELEMENT_ARRAY_BUFFER,
                source: BufferSource::Indices,
                usage,
            }
        } else if stage == 19 {
            GpuCommand::BindBuffer { target: gl::ARRAY_BUFFER, buffer: None }
        } else {
            GpuCommand::BindVertexArray(None)
        };
        GpuStep::Call(command)
    }
}

} // verus!
