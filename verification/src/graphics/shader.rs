//! Shader programs.

use vstd::prelude::*;
use crate::graphics::device::Destroy;
use crate::graphics::errors::GfxError;
use crate::graphics::gpu::{GpuCommand, GpuReply, GpuStep, ReplyKind, ShaderStage};

verus! {

/// Handle to a linked shader program.
#[derive(Debug, Clone, Copy, PartialEq, Eq)]
pub struct Shader {
    program: u32,
}

impl Shader {
    /// The GPU object.
    pub closed spec fn raw(self) -> u32 {
        self.program
    }

    pub fn program(&self) -> (program: u32)
        ensures
            program == self.raw(),
    {
        self.program
    }

    /// The message that the owner of the program queues when it lets go.
    pub fn destroy_message(&self) -> (message: Destroy)
        ensures
            message == Destroy::Shader(self.raw()),
    {
        Destroy::Shader(self.program)
    }

    /// Begins the build of a program from the source texts of its two
    /// stages.
    pub fn from_source(vertex: &str, fragment: &str) -> (build: ShaderBuild)
        ensures
            build.route() == Route::Build,
            build.position() == 0,
            build.source_text(ShaderStage::Vertex) == vertex@,
            build.source_text(ShaderStage::Fragment) == fragment@,
    {
        ShaderBuild {
            vertex: String::from_str(vertex),
            fragment: String::from_str(fragment),
            program: 0,
            vertex_shader: 0,
            fragment_shader: 0,
            log: String::new(),
            route: Route::Build,
            position: 0,
        }
    }
}

/// The way a build goes: to a linked program, or through the clean-up that
/// follows the failure of one of its three steps.
#[derive(Debug, Clone, Copy, PartialEq, Eq)]
pub enum Route {
    Build,
    VertexFailed,
    FragmentFailed,
    LinkFailed,
}

/// The commands that build a program and then detach and delete its stage
/// objects.
pub open spec fn build_commands(program: u32, vertex: u32, fragment: u32) -> Seq<GpuCommand> {
    seq![
        GpuCommand::CreateProgram,
        GpuCommand::CreateShader(ShaderStage::Vertex),
        GpuCommand::ShaderSource { shader: vertex, stage: ShaderStage::Vertex },
        GpuCommand::CompileShader(vertex),
        GpuCommand::GetCompileStatus(vertex),
        GpuCommand::AttachShader { program, shader: vertex },
        GpuCommand::CreateShader(ShaderStage::Fragment),
        GpuCommand::ShaderSource { shader: fragment, stage: ShaderStage::Fragment },
        GpuCommand::CompileShader(fragment),
        GpuCommand::GetCompileStatus(fragment),
        GpuCommand::AttachShader { program, shader: fragment },
        GpuCommand::LinkProgram(program),
        GpuCommand::GetLinkStatus(program),
        GpuCommand::DetachShader { program, shader: vertex },
        GpuCommand::DeleteShader(vertex),
        GpuCommand::DetachShader { program, shader: fragment },
        GpuCommand::DeleteShader(fragment),
    ]
}

/// The commands of a route. A failure route reads the driver's diagnostics,
/// then deletes every stage object created so far, detaching those that
/// were attached, and at last deletes the program object, which nothing
/// will own.
pub open spec fn route_commands(route: Route, program: u32, vertex: u32, fragment: u32) -> Seq<
    GpuCommand,
> {
    match route {
        Route::Build => build_commands(program, vertex, fragment),
        Route::VertexFailed => seq![
            GpuCommand::GetShaderInfoLog(vertex),
            GpuCommand::DeleteShader(vertex),
            GpuCommand::DeleteProgram(program),
        ],
        Route::FragmentFailed => seq![
            GpuCommand::GetShaderInfoLog(fragment),
            GpuCommand::DeleteShader(fragment),
            GpuCommand::DetachShader { program, shader: vertex },
            GpuCommand::DeleteShader(vertex),
            GpuCommand::DeleteProgram(program),
        ],
        Route::LinkFailed => seq![
            GpuCommand::GetProgramInfoLog(program),
            GpuCommand::DetachShader { program, shader: vertex },
            GpuCommand::DeleteShader(vertex),
            GpuCommand::DetachShader { program, shader: fragment },
            GpuCommand::DeleteShader(fragment),
            GpuCommand::DeleteProgram(program),
        ],
    }
}

/// Whether `first` stands somewhere before `second` in the commands.
pub open spec fn precedes(commands: Seq<GpuCommand>, first: GpuCommand, second: GpuCommand) -> bool {
    exists|i: int, j: int|
        0 <= i < j < commands.len() && commands[i] == first && commands[j] == second
}

/// Whatever the route, a stage object that the route's build had created is
/// deleted by the route's commands, and one that was attached is detached
/// before it is deleted. A failure route ends with the deletion of the
/// program object; the build route does not delete it.
pub proof fn lemma_stage_objects_cleaned(route: Route, program: u32, vertex: u32, fragment: u32)
    ensures
        ({
            let commands = route_commands(route, program, vertex, fragment);
            let detach_vertex = GpuCommand::DetachShader { program, shader: vertex };
            let detach_fragment = GpuCommand::DetachShader { program, shader: fragment };
            &&& commands.contains(GpuCommand::DeleteShader(vertex))
            &&& route != Route::VertexFailed ==> precedes(
                commands,
                detach_vertex,
                GpuCommand::DeleteShader(vertex),
            )
            &&& route != Route::VertexFailed ==> commands.contains(
                GpuCommand::DeleteShader(fragment),
            )
            &&& (route == Route::Build || route == Route::LinkFailed) ==> precedes(
                commands,
                detach_fragment,
                GpuCommand::DeleteShader(fragment),
            )
            &&& route != Route::Build ==> commands.last() == GpuCommand::DeleteProgram(program)
            &&& route == Route::Build ==> !commands.contains(GpuCommand::DeleteProgram(program))
        }),
{
    let commands = route_commands(route, program, vertex, fragment);
    let detach_vertex = GpuCommand::DetachShader { program, shader: vertex };
    let detach_fragment = GpuCommand::DetachShader { program, shader: fragment };
    let delete_vertex = GpuCommand::DeleteShader(vertex);
    let delete_fragment = GpuCommand::DeleteShader(fragment);
    match route {
        Route::Build => {
            assert(commands[13] == detach_vertex && commands[14] == delete_vertex);
            assert(commands[15] == detach_fragment && commands[16] == delete_fragment);
        },
        Route::VertexFailed => {
            assert(commands[1] == delete_vertex);
        },
        Route::FragmentFailed => {
            assert(commands[1] == delete_fragment);
            assert(commands[2] == detach_vertex && commands[3] == delete_vertex);
        },
        Route::LinkFailed => {
            assert(commands[1] == detach_vertex && commands[2] == delete_vertex);
            assert(commands[3] == detach_fragment && commands[4] == delete_fragment);
        },
    }
}

/// The route taken when the status asked for by the command at `position`
/// of the build is negative.
pub open spec fn failure_route(position: nat) -> Route {
    if position == 5 {
        Route::VertexFailed
    } else if position == 10 {
        Route::FragmentFailed
    } else {
        Route::LinkFailed
    }
}

/// The build of a shader program in progress.
#[derive(Debug)]
pub struct ShaderBuild {
    vertex: String,
    fragment: String,
    program: u32,
    vertex_shader: u32,
    fragment_shader: u32,
    log: String,
    route: Route,
    position: u8,
}

impl ShaderBuild {
    /// The route the build is on.
    pub closed spec fn route(self) -> Route {
        self.route
    }

    /// The number of commands of the route handed out so far; one more
    /// once the build is finished.
    pub closed spec fn position(self) -> nat {
        self.position as nat
    }

    /// The source text of a stage.
    pub closed spec fn source_text(self, stage: ShaderStage) -> Seq<char> {
        match stage {
            ShaderStage::Vertex => self.vertex@,
            ShaderStage::Fragment => self.fragment@,
        }
    }

    /// The handles that the driver named for the program, the vertex stage
    /// and the fragment stage; zero before it did.
    pub closed spec fn handles(self) -> (u32, u32, u32) {
        (self.program, self.vertex_shader, self.fragment_shader)
    }

    /// The diagnostics read so far.
    pub closed spec fn diagnostics(self) -> Seq<char> {
        self.log@
    }

    /// The commands of the route the build is on.
    pub open spec fn commands(self) -> Seq<GpuCommand> {
        route_commands(self.route(), self.handles().0, self.handles().1, self.handles().2)
    }

    /// Whether the result was given out.
    pub open spec fn finished(self) -> bool {
        self.position() > self.commands().len()
    }

    /// Whether `reply` answers the command handed out last; before the
    /// first command there is nothing to answer.
    pub open spec fn accepts(self, reply: GpuReply) -> bool {
        &&& !self.finished()
        &&& reply.kind() == if self.position() == 0 {
            ReplyKind::Nothing
        } else {
            self.commands()[self.position() - 1].reply_kind()
        }
    }

    /// The source text that a `ShaderSource` command of the stage hands to
    /// the driver.
    pub fn source(&self, stage: ShaderStage) -> (text: &str)
        ensures
            text@ == self.source_text(stage),
    {
        match stage {
            ShaderStage::Vertex => self.vertex.as_str(),
            ShaderStage::Fragment => self.fragment.as_str(),
        }
    }

    /// Takes the reply to the previous command and gives the next step.
    ///
    /// The commands of `build_commands` are handed out in order, and the
    /// program is handed out after the last. A negative compile or link
    /// status moves the build to the failure route of that step; at the end
    /// of a failure route the result is the error that carries the
    /// diagnostics. On every route each stage object that was created is
    /// deleted before the result is given, and detached first where it was
    /// attached. A failed build deletes its program object too.
    pub fn advance(&mut self, reply: GpuReply) -> (step: GpuStep<Shader>)
        requires
            old(self).accepts(reply),
        ensures
            final(self).source_text(ShaderStage::Vertex) == old(self).source_text(
                ShaderStage::Vertex,
            ),
            final(self).source_text(ShaderStage::Fragment) == old(self).source_text(
                ShaderStage::Fragment,
            ),
            final(self).handles() == (
                if reply is Handle && old(self).position() == 1 {
                    reply->Handle_0
                } else {
                    old(self).handles().0
                },
                if reply is Handle && old(self).position() == 2 {
                    reply->Handle_0
                } else {
                    old(self).handles().1
                },
                if reply is Handle && old(self).position() == 7 {
                    reply->Handle_0
                } else {
                    old(self).handles().2
                },
            ),
            final(self).diagnostics() == if reply is Text {
                reply->Text_0@
            } else {
                old(self).diagnostics()
            },
            match step {
                GpuStep::Call(command) => if reply == GpuReply::Flag(false) {
                    &&& final(self).route() == failure_route(old(self).position())
                    &&& final(self).position() == 1
                    &&& command == final(self).commands()[0]
                } else {
                    &&& final(self).route() == old(self).route()
                    &&& old(self).position() < final(self).commands().len()
                    &&& final(self).position() == old(self).position() + 1
                    &&& command == final(self).commands()[old(self).position() as int]
                },
                GpuStep::Finished(Ok(shader)) => {
                    &&& old(self).route() == Route::Build
                    &&& old(self).position() == old(self).commands().len()
                    &&& shader.raw() == old(self).handles().0
                    &&& final(self).finished()
                },
                GpuStep::Finished(Err(e)) => {
                    &&& old(self).route() != Route::Build
                    &&& old(self).position() == old(self).commands().len()
                    &&& e matches GfxError::ShaderCompile(log) && log@ == old(self).diagnostics()
                    &&& final(self).finished()
                },
            },
    {
        let position = self.position;
        let mut next = position;
        match reply {
            GpuReply::Handle(handle) => {
                if position == 1 {
                    self.program = handle;
                } else if position == 2 {
                    self.vertex_shader = handle;
                } else if position == 7 {
                    self.fragment_shader = handle;
                }
            },
            GpuReply::Flag(ok) => {
                if !ok {
                    self.route = if position == 5 {
                        Route::VertexFailed
                    } else if position == 10 {
                        Route::FragmentFailed
                    } else {
                        Route::LinkFailed
                    };
                    next = 0;
                }
            },
            GpuReply::Text(log) => {
                self.log = log;
            },
            _ => {},
        }
        let length: u8 = match self.route {
            Route::Build => 17,
            Route::VertexFailed => 3,
            Route::FragmentFailed => 5,
            Route::LinkFailed => 6,
        };
        if next >= length {
            self.position = length + 1;
            return match self.route {
                Route::Build => GpuStep::Finished(Ok(Shader { program: self.program })),
                _ => {
                    GpuStep::Finished(Err(GfxError::ShaderCompile(self.log.clone())))
                },
            };
        }
        self.position = next + 1;
        let program = self.program;
        let vertex = self.vertex_shader;
        let fragment = self.fragment_shader;
        let command = match self.route {
            Route::Build => {
                if next == 0 {
                    GpuCommand::CreateProgram
                } else if next == 1 {
                    GpuCommand::CreateShader(ShaderStage::Vertex)
                } else if next == 2 {
                    GpuCommand::ShaderSource { shader: vertex, stage: ShaderStage::Vertex }
                } else if next == 3 {
                    GpuCommand::CompileShader(vertex)
                } else if next == 4 {
                    GpuCommand::GetCompileStatus(vertex)
                } else if next == 5 {
                    GpuCommand::AttachShader { program, shader: vertex }
                } else if next == 6 {
                    GpuCommand::CreateShader(ShaderStage::Fragment)
                } else if next == 7 {
                    GpuCommand::ShaderSource { shader: fragment, stage: ShaderStage::Fragment }
                } else if next == 8 {
                    GpuCommand::CompileShader(fragment)
                } else if next == 9 {
                    GpuCommand::GetCompileStatus(fragment)
                } else if next == 10 {
                    GpuCommand::AttachShader { program, shader: fragment }
                } else if next == 11 {
                    GpuCommand::LinkProgram(program)
                } else if next == 12 {
                    GpuCommand::GetLinkStatus(program)
                } else if next == 13 {
                    GpuCommand::DetachShader { program, shader: vertex }
                } else if next == 14 {
                    GpuCommand::DeleteShader(vertex)
                } else if next == 15 {
                    GpuCommand::DetachShader { program, shader: fragment }
                } else {
                    GpuCommand::DeleteShader(fragment)
                }
            },
            Route::VertexFailed => {
                if next == 0 {
                    GpuCommand::GetShaderInfoLog(vertex)
                } else if next == 1 {
                    GpuCommand::DeleteShader(vertex)
                } else {
                    GpuCommand::DeleteProgram(program)
                }
            },
            Route::FragmentFailed => {
                if next == 0 {
                    GpuCommand::GetShaderInfoLog(fragment)
                } else if next == 1 {
                    GpuCommand::DeleteShader(fragment)
                } else if next == 2 {
                    GpuCommand::DetachShader { program, shader: vertex }
                } else if next == 3 {
                    GpuCommand::DeleteShader(vertex)
                } else {
                    GpuCommand::DeleteProgram(program)
                }
            },
            Route::LinkFailed => {
                if next == 0 {
                    GpuCommand::GetProgramInfoLog(program)
                } else if next == 1 {
                    GpuCommand::DetachShader { program, shader: vertex }
                } else if next == 2 {
                    GpuCommand::DeleteShader(vertex)
                } else if next == 3 {
                    GpuCommand::DetachShader { program, shader: fragment }
                } else if next == 4 {
                    GpuCommand::DeleteShader(fragment)
                } else {
                    GpuCommand::DeleteProgram(program)
                }
            },
        };
        GpuStep::Call(command)
    }
}

} // verus!
