//! The graphic device and its queue of deferred releases.
//!
//! Deleting a GPU object is only valid while the device's context is
//! current, but a resource can be let go at any moment. Letting go therefore
//! only queues a message; `GraphicDevice::maintain` turns the queued
//! messages into delete commands at a point where the context is current.
//! A program that never maintains its device leaks video memory and is
//! otherwise correct.

use vstd::prelude::*;
use crate::graphics::gl;
use crate::graphics::gpu::GpuCommand;
use crate::graphics::shader::Shader;
use crate::graphics::texture::Texture;
use crate::graphics::vao::VertexArrayObject;
use crate::text::{push_text, same_text};

verus! {

/// Message queued when a resource is let go, instructing the device to
/// release the underlying GPU object.
#[derive(Debug, Clone, Copy, PartialEq, Eq)]
pub enum Destroy {
    Texture(u32),
    Shader(u32),
    VertexArray(u32),
}

impl Destroy {
    /// The command that releases the object.
    pub open spec fn command(self) -> GpuCommand {
        match self {
            Destroy::Texture(handle) => GpuCommand::DeleteTexture(handle),
            Destroy::Shader(program) => GpuCommand::DeleteProgram(program),
            Destroy::VertexArray(handle) => GpuCommand::DeleteVertexArray(handle),
        }
    }

    /// The command that releases the object.
    pub fn delete_command(&self) -> (command: GpuCommand)
        ensures
            command == self.command(),
    {
        match self {
            Destroy::Texture(handle) => GpuCommand::DeleteTexture(*handle),
            Destroy::Shader(program) => GpuCommand::DeleteProgram(*program),
            Destroy::VertexArray(handle) => GpuCommand::DeleteVertexArray(*handle),
        }
    }
}

/// The delete commands of a sequence of messages, in the same order.
pub open spec fn delete_commands(messages: Seq<Destroy>) -> Seq<GpuCommand> {
    Seq::new(messages.len(), |i: int| messages[i].command())
}

/// First-in first-out queue of release messages.
#[derive(Debug)]
pub struct DestroyQueue {
    pending: Vec<Destroy>,
}

impl View for DestroyQueue {
    type V = Seq<Destroy>;

    closed spec fn view(&self) -> Seq<Destroy> {
        self.pending@
    }
}

impl DestroyQueue {
    /// An empty queue.
    pub fn new() -> (queue: Self)
        ensures
            queue@ == Seq::<Destroy>::empty(),
    {
        Self { pending: Vec::new() }
    }

    /// Queues a message behind those already waiting. Never fails.
    pub fn send(&mut self, destroy_msg: Destroy)
        ensures
            final(self)@ == old(self)@.push(destroy_msg),
    {
        self.pending.push(destroy_msg);
    }

    /// The number of waiting messages.
    pub fn len(&self) -> (n: usize)
        ensures
            n == self@.len(),
    {
        self.pending.len()
    }

    /// Whether no message waits.
    pub fn is_empty(&self) -> (r: bool)
        ensures
            r == (self@.len() == 0),
    {
        self.pending.len() == 0
    }

    /// Takes every waiting message out, oldest first.
    pub fn drain(&mut self) -> (messages: Vec<Destroy>)
        ensures
            messages@ == old(self)@,
            final(self)@ == Seq::<Destroy>::empty(),
    {
        let mut messages: Vec<Destroy> = Vec::new();
        core::mem::swap(&mut messages, &mut self.pending);
        messages
    }
}

/// Hardware information supplied by the graphics device.
#[derive(Debug, Clone, PartialEq, Eq)]
pub struct OpenGlInfo {
    pub version: String,
    pub vendor: String,
    pub renderer: String,
}

impl OpenGlInfo {
    pub open spec fn text(self) -> Seq<char> {
        "OpenGL Info:\n    Version: "@ + self.version@ + "\n    Vendor: "@ + self.vendor@
            + "\n    Renderer: "@ + self.renderer@ + "\n"@
    }

    /// The information as text, one line per entry.
    pub fn to_string(&self) -> (s: String)
        ensures
            s@ == self.text(),
    {
        let mut s = String::new();
        push_text(&mut s, "OpenGL Info:\n    Version: ");
        push_text(&mut s, self.version.as_str());
        push_text(&mut s, "\n    Vendor: ");
        push_text(&mut s, self.vendor.as_str());
        push_text(&mut s, "\n    Renderer: ");
        push_text(&mut s, self.renderer.as_str());
        push_text(&mut s, "\n");
        assert(s@ =~= self.text());
        s
    }
}

/// The engine's view of the graphics context: the extensions the driver
/// reported, the surface size, and the resources waiting for release.
#[derive(Debug)]
pub struct GraphicDevice {
    extensions: Vec<String>,
    destroy: DestroyQueue,
    viewport_size: [u32; 2],
}

impl GraphicDevice {
    /// The names of the extensions the driver reported.
    pub closed spec fn extension_names(self) -> Seq<Seq<char>> {
        Seq::new(self.extensions@.len(), |i: int| self.extensions@[i]@)
    }

    /// The release messages that wait for the next maintenance.
    pub closed spec fn queued(self) -> Seq<Destroy> {
        self.destroy@
    }

    /// Width and height of the surface.
    pub closed spec fn viewport(self) -> (u32, u32) {
        (self.viewport_size[0], self.viewport_size[1])
    }

    /// Whether the driver reported the extension.
    pub open spec fn supports(self, extension: Seq<char>) -> bool {
        self.extension_names().contains(extension)
    }

    /// Creates a graphic device from the extension names that the context
    /// reported. The surface starts at 640 by 480 and nothing waits for
    /// release.
    pub fn new(extensions: Vec<String>) -> (device: Self)
        ensures
            device.extension_names() == Seq::new(extensions@.len(), |i: int| extensions@[i]@),
            device.queued() == Seq::<Destroy>::empty(),
            device.viewport() == (640u32, 480u32),
    {
        Self { extensions, destroy: DestroyQueue::new(), viewport_size: [640, 480] }
    }

    pub fn viewport_size(&self) -> (size: [u32; 2])
        ensures
            (size[0], size[1]) == self.viewport(),
    {
        self.viewport_size
    }

    pub fn set_viewport_size(&mut self, size: [u32; 2])
        ensures
            final(self).viewport() == (size[0], size[1]),
            final(self).extension_names() == old(self).extension_names(),
            final(self).queued() == old(self).queued(),
    {
        self.viewport_size = size;
    }

    /// Sets the surface size from a width and a height.
    pub fn set_viewport_2(&mut self, width: u32, height: u32)
        ensures
            final(self).viewport() == (width, height),
            final(self).extension_names() == old(self).extension_names(),
            final(self).queued() == old(self).queued(),
    {
        self.viewport_size = [width, height];
    }

    /// Whether the driver reported the extension.
    pub fn has_extension(&self, extension: &str) -> (r: bool)
        ensures
            r == self.supports(extension@),
    {
        let mut i: usize = 0;
        while i < self.extensions.len()
            invariant
                i <= self.extensions@.len(),
                forall|j: int| 0 <= j < i ==> self.extension_names()[j] != extension@,
            decreases self.extensions@.len() - i,
        {
            if same_text(self.extensions[i].as_str(), extension) {
                assert(self.extension_names()[i as int] == extension@);
                return true;
            }
            i += 1;
        }
        false
    }

    /// The queue of resources waiting for release.
    pub fn destroy_queue(&self) -> (queue: &DestroyQueue)
        ensures
            queue@ == self.queued(),
    {
        &self.destroy
    }

    /// Queues the release of a resource of this device.
    pub fn release(&mut self, destroy_msg: Destroy)
        ensures
            final(self).queued() == old(self).queued().push(destroy_msg),
            final(self).extension_names() == old(self).extension_names(),
            final(self).viewport() == old(self).viewport(),
    {
        self.destroy.send(destroy_msg);
    }

    /// Release graphics resources: empties the queue and returns one delete
    /// command for each message that waited, oldest first. To be called
    /// only while the device's context is current.
    pub fn maintain(&mut self) -> (commands: Vec<GpuCommand>)
        ensures
            commands@ == delete_commands(old(self).queued()),
            final(self).queued() == Seq::<Destroy>::empty(),
            final(self).extension_names() == old(self).extension_names(),
            final(self).viewport() == old(self).viewport(),
    {
        let messages = self.destroy.drain();
        let mut commands: Vec<GpuCommand> = Vec::new();
        let mut i: usize = 0;
        while i < messages.len()
            invariant
                i <= messages@.len(),
                commands@.len() == i,
                forall|j: int| 0 <= j < i ==> commands@[j] == messages@[j].command(),
            decreases messages@.len() - i,
        {
            commands.push(messages[i].delete_command());
            i += 1;
        }
        assert(commands@ =~= delete_commands(messages@));
        commands
    }

    /// The commands that clear the whole surface to a colour.
    pub fn clear_screen_4(&self, r: u8, g: u8, b: u8, a: u8) -> (commands: Vec<GpuCommand>)
        ensures
            commands@ == seq![
                GpuCommand::Viewport { width: self.viewport().0, height: self.viewport().1 },
                GpuCommand::ClearScreen { r, g, b, a },
            ],
    {
        let mut commands: Vec<GpuCommand> = Vec::new();
        commands.push(
            GpuCommand::Viewport { width: self.viewport_size[0], height: self.viewport_size[1] },
        );
        commands.push(GpuCommand::ClearScreen { r, g, b, a });
        commands
    }
}

/// The commands that draw a vertex array object with a texture and a
/// shader on a surface of the given size; the caller supplies the
/// transform.
pub open spec fn draw_commands(
    viewport: (u32, u32),
    vao: VertexArrayObject,
    tex: Texture,
    shader: Shader,
) -> Seq<GpuCommand> {
    seq![
        GpuCommand::Viewport { width: viewport.0, height: viewport.1 },
        GpuCommand::UseProgram(Some(shader.raw())),
        GpuCommand::UniformCanvasSize { location: 0, width: viewport.0, height: viewport.1 },
        GpuCommand::UniformTransform { location: 1 },
        GpuCommand::BindVertexArray(Some(vao.raw())),
        GpuCommand::UniformSampler { location: 2, unit: 0 },
        GpuCommand::ActiveTexture(gl::TEXTURE0),
        GpuCommand::BindTexture(Some(tex.raw())),
        GpuCommand::DrawElements { count: vao.index_count() as usize },
        GpuCommand::BindVertexArray(None),
        GpuCommand::UseProgram(None),
    ]
}

impl GraphicDevice {
    /// The commands that draw a vertex array object with a texture and a
    /// shader.
    pub fn draw_vertex_array_object(
        &self,
        vao: &VertexArrayObject,
        tex: &Texture,
        shader: &Shader,
    ) -> (commands: Vec<GpuCommand>)
        ensures
            commands@ == draw_commands(self.viewport(), *vao, *tex, *shader),
    {
        let mut commands: Vec<GpuCommand> = Vec::new();
        let width = self.viewport_size[0];
        let height = self.viewport_size[1];
        commands.push(GpuCommand::Viewport { width, height });
        commands.push(GpuCommand::UseProgram(Some(shader.program())));
        commands.push(GpuCommand::UniformCanvasSize { location: 0, width, height });
        commands.push(GpuCommand::UniformTransform { location: 1 });
        commands.push(GpuCommand::BindVertexArray(Some(vao.handle())));
        commands.push(GpuCommand::UniformSampler { location: 2, unit: 0 });
        commands.push(GpuCommand::ActiveTexture(gl::TEXTURE0));
        commands.push(GpuCommand::BindTexture(Some(tex.raw_handle())));
        commands.push(GpuCommand::DrawElements { count: vao.len() });
        commands.push(GpuCommand::BindVertexArray(None));
        commands.push(GpuCommand::UseProgram(None));
        assert(commands@ =~= draw_commands(self.viewport(), *vao, *tex, *shader));
        commands
    }
}

/// The queue after the messages of a sequence of released resources were
/// sent to it one after the other.
pub open spec fn after_release(queue: Seq<Destroy>, released: Seq<Destroy>) -> Seq<Destroy>
    decreases released.len(),
{
    if released.len() == 0 {
        queue
    } else {
        after_release(queue, released.drop_last()).push(released.last())
    }
}

/// Letting go of N resources queues exactly N messages, in the order of
/// release and behind those that waited; maintenance answers each queued
/// message with one delete command and leaves the queue empty, so that a
/// second maintenance has no command to give.
pub proof fn lemma_release_then_maintain(queue: Seq<Destroy>, released: Seq<Destroy>)
    ensures
        after_release(queue, released) == queue + released,
        after_release(queue, released).len() == queue.len() + released.len(),
        delete_commands(after_release(queue, released)).len() == queue.len() + released.len(),
        delete_commands(Seq::<Destroy>::empty()) == Seq::<GpuCommand>::empty(),
    decreases released.len(),
{
    if released.len() > 0 {
        lemma_release_then_maintain(queue, released.drop_last());
        assert(after_release(queue, released) =~= queue + released);
    } else {
        assert(after_release(queue, released) =~= queue + released);
    }
    assert(delete_commands(Seq::<Destroy>::empty()) =~= Seq::<GpuCommand>::empty());
}

} // verus!
