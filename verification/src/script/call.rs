//! Call handles: native bindings to script functions.
//!
//! A script function that native code calls again and again is resolved
//! once. Resolving is only valid inside a transient call context, so the
//! resolved reference is then pinned: detached from the context, it stays
//! valid until it is released. Every handle has to be released before the
//! runtime that it points into is destroyed.

use vstd::prelude::*;
use crate::script::errors::WrenError;

verus! {

/// The script functions that the engine calls.
#[derive(Debug, Clone, Copy, PartialEq, Eq)]
pub enum Hook {
    SetDeltaTime,
    Init,
    Update,
    Draw,
    MouseSetPos,
    MousePushButton,
    KeyPress,
    KeyRelease,
    PushChar,
    SetViewport,
    Maintain,
}

/// Where a hook is found in the scripts.
#[derive(Debug, Clone, Copy, PartialEq, Eq)]
pub struct HookTarget {
    /// The module that holds the class.
    pub module: &'static str,
    /// The class variable.
    pub class: &'static str,
    /// The getter of the class that yields the receiver; without one the
    /// class itself receives the call.
    pub getter: Option<&'static str>,
    /// The signature of the function.
    pub signature: &'static str,
}

/// The module, class, getter and signature of a hook.
pub open spec fn hook_target(hook: Hook) -> (Seq<char>, Seq<char>, Option<Seq<char>>, Seq<char>) {
    match hook {
        Hook::SetDeltaTime => ("game"@, "Game"@, None, "deltaTime_=(_)"@),
        Hook::Init => ("game"@, "Game"@, Some("handler_"@), "init()"@),
        Hook::Update => ("game"@, "Game"@, Some("handler_"@), "process_()"@),
        Hook::Draw => ("game"@, "Game"@, Some("handler_"@), "draw()"@),
        Hook::MouseSetPos => ("gers.input"@, "Mouse"@, None, "setPos_(_,_,_,_)"@),
        Hook::MousePushButton => ("gers.input"@, "Mouse"@, None, "pushButton_(_,_)"@),
        Hook::KeyPress => ("gers.input"@, "Keyboard"@, None, "setKeyPress_(_)"@),
        Hook::KeyRelease => ("gers.input"@, "Keyboard"@, None, "setKeyRelease_(_)"@),
        Hook::PushChar => ("gers.input"@, "Keyboard"@, None, "pushChar_(_)"@),
        Hook::SetViewport => (
            "gers.graphics"@,
            "GraphicDevice"@,
            Some("instance"@),
            "setViewport_(_,_)"@,
        ),
        Hook::Maintain => ("gers.graphics"@, "GraphicDevice"@, Some("instance"@), "maintain()"@),
    }
}

impl HookTarget {
    /// The four names as character sequences.
    pub open spec fn names(self) -> (Seq<char>, Seq<char>, Option<Seq<char>>, Seq<char>) {
        (
            self.module@,
            self.class@,
            match self.getter {
                Some(getter) => Some(getter@),
                None => None,
            },
            self.signature@,
        )
    }
}

impl Hook {
    /// Where the hook is found in the scripts.
    pub fn target(self) -> (target: HookTarget)
        ensures
            target.names() == hook_target(self),
    {
        match self {
            Hook::SetDeltaTime => HookTarget {
                module: "game",
                class: "Game",
                getter: None,
                signature: "deltaTime_=(_)",
            },
            Hook::Init => HookTarget {
                module: "game",
                class: "Game",
                getter: Some("handler_"),
                signature: "init()",
            },
            Hook::Update => HookTarget {
                module: "game",
                class: "Game",
                getter: Some("handler_"),
                signature: "process_()",
            },
            Hook::Draw => HookTarget {
                module: "game",
                class: "Game",
                getter: Some("handler_"),
                signature: "draw()",
            },
            Hook::MouseSetPos => HookTarget {
                module: "gers.input",
                class: "Mouse",
                getter: None,
                signature: "setPos_(_,_,_,_)",
            },
            Hook::MousePushButton => HookTarget {
                module: "gers.input",
                class: "Mouse",
                getter: None,
                signature: "pushButton_(_,_)",
            },
            Hook::KeyPress => HookTarget {
                module: "gers.input",
                class: "Keyboard",
                getter: None,
                signature: "setKeyPress_(_)",
            },
            Hook::KeyRelease => HookTarget {
                module: "gers.input",
                class: "Keyboard",
                getter: None,
                signature: "setKeyRelease_(_)",
            },
            Hook::PushChar => HookTarget {
                module: "gers.input",
                class: "Keyboard",
                getter: None,
                signature: "pushChar_(_)",
            },
            Hook::SetViewport => HookTarget {
                module: "gers.graphics",
                class: "GraphicDevice",
                getter: Some("instance"),
                signature: "setViewport_(_,_)",
            },
            Hook::Maintain => HookTarget {
                module: "gers.graphics",
                class: "GraphicDevice",
                getter: Some("instance"),
                signature: "maintain()",
            },
        }
    }
}

/// The life of a call handle.
#[derive(Debug, Clone, Copy, PartialEq, Eq)]
pub enum CallState {
    /// Only the receiver and the function's name are known.
    Unresolved,
    /// The function symbol is resolved; valid inside the call context that
    /// resolved it.
    Compiled,
    /// Pinned: detached from the call context, valid until released.
    Leaked,
    /// Given back to the runtime.
    Released,
}

/// The arguments of a call. Values that the event loop holds as floating
/// point numbers are named, not carried.
#[derive(Debug, Clone, PartialEq, Eq)]
pub enum CallArgs {
    /// No argument.
    Empty,
    /// The seconds since the previous frame.
    DeltaTime,
    /// A width and a height.
    Size { width: u32, height: u32 },
    /// The cursor's logical and physical position.
    Cursor,
    /// A mouse button and whether it is down.
    Button { id: i32, pressed: bool },
    /// A text.
    Text(String),
    /// One character, handed over as a text of that character.
    Char(char),
}

/// A request to the owner of the script runtime.
#[derive(Debug, Clone, Copy, PartialEq, Eq)]
pub enum ScriptCommand {
    /// Resolve the hook's receiver and function symbol inside the current
    /// call context. Answered by `Done` or `Failed`.
    Compile(Hook),
    /// Pin the call reference compiled last. Answered by `Pinned` or
    /// `Failed`.
    Leak(Hook),
    /// Give the pinned handle back to the runtime.
    Release(u32),
    /// Destroy the runtime.
    DestroyVm,
}

/// The answer to a request.
#[derive(Debug, Clone, PartialEq, Eq)]
pub enum ScriptReply {
    /// The request has no answer.
    Nothing,
    /// The request succeeded.
    Done,
    /// The request succeeded; the token names the pinned handle.
    Pinned(u32),
    /// The runtime reported a failure.
    Failed(WrenError),
}

/// A native handle to one script function.
#[derive(Debug, Clone, Copy, PartialEq, Eq)]
pub struct CallHandle {
    hook: Hook,
    state: CallState,
    token: u32,
}

impl CallHandle {
    /// The function that the handle calls.
    pub closed spec fn hook(self) -> Hook {
        self.hook
    }

    /// Where the handle is in its life.
    pub closed spec fn state(self) -> CallState {
        self.state
    }

    /// The token under which the runtime's owner keeps the pinned handle;
    /// meaningful from the pinning on.
    pub closed spec fn token(self) -> u32 {
        self.token
    }

    /// A handle of which only the target is known.
    pub fn new(hook: Hook) -> (handle: Self)
        ensures
            handle.hook() == hook,
            handle.state() == CallState::Unresolved,
    {
        Self { hook, state: CallState::Unresolved, token: 0 }
    }

    /// Records that the function symbol was resolved.
    pub fn compiled(&mut self)
        requires
            old(self).state() == CallState::Unresolved,
        ensures
            final(self).hook() == old(self).hook(),
            final(self).state() == CallState::Compiled,
    {
        self.state = CallState::Compiled;
    }

    /// Records that the compiled reference was pinned under a token.
    pub fn leaked(&mut self, token: u32)
        requires
            old(self).state() == CallState::Compiled,
        ensures
            final(self).hook() == old(self).hook(),
            final(self).state() == CallState::Leaked,
            final(self).token() == token,
    {
        self.state = CallState::Leaked;
        self.token = token;
    }

    /// Releases a pinned handle: the request to hand to the runtime's
    /// owner.
    pub fn release(&mut self) -> (command: ScriptCommand)
        requires
            old(self).state() == CallState::Leaked,
        ensures
            final(self).hook() == old(self).hook(),
            final(self).token() == old(self).token(),
            final(self).state() == CallState::Released,
            command == ScriptCommand::Release(old(self).token()),
    {
        self.state = CallState::Released;
        ScriptCommand::Release(self.token)
    }

    /// Whether the handle may be invoked: only while it is pinned.
    pub fn is_live(&self) -> (live: bool)
        ensures
            live == (self.state() == CallState::Leaked),
    {
        match self.state {
            CallState::Leaked => true,
            _ => false,
        }
    }

    pub fn get_hook(&self) -> (hook: Hook)
        ensures
            hook == self.hook(),
    {
        self.hook
    }

    pub fn get_state(&self) -> (state: CallState)
        ensures
            state == self.state(),
    {
        self.state
    }

    pub fn get_token(&self) -> (token: u32)
        ensures
            token == self.token(),
    {
        self.token
    }
}

/// What a set-up asks for next.
#[derive(Debug)]
pub enum SetupStep {
    /// Perform this request and hand its answer to the next call.
    Call(ScriptCommand),
    /// The set-up is over: the pinned handles, one per hook and in the
    /// order of the hooks, or the failure that ended it.
    Finished(Result<Vec<CallHandle>, WrenError>),
}

/// The request at a position of a set-up that meets no failure: every hook
/// in turn is compiled and then pinned.
pub open spec fn setup_command(hooks: Seq<Hook>, position: int) -> ScriptCommand {
    if position % 2 == 0 {
        ScriptCommand::Compile(hooks[position / 2])
    } else {
        ScriptCommand::Leak(hooks[position / 2])
    }
}

/// Whether the handles are the pinned handles of the hooks, in order, under
/// the given tokens.
pub open spec fn pinned_handles(handles: Seq<CallHandle>, hooks: Seq<Hook>, tokens: Seq<u32>) -> bool {
    &&& handles.len() == hooks.len()
    &&& tokens.len() == hooks.len()
    &&& forall|i: int|
        0 <= i < handles.len() ==> {
            &&& (#[trigger] handles[i]).hook() == hooks[i]
            &&& handles[i].state() == CallState::Leaked
            &&& handles[i].token() == tokens[i]
        }
}

/// The resolving and pinning of a list of hooks, in progress.
///
/// The set-up is all or nothing: when the runtime reports a failure, the
/// handles pinned until then are released, in the order of their pinning,
/// before the failure is handed out.
#[derive(Debug)]
pub struct HookSetup {
    hooks: Vec<Hook>,
    handles: Vec<CallHandle>,
    current: CallHandle,
    position: usize,
    failed: bool,
    failure: Option<WrenError>,
    released: usize,
    done: bool,
}

impl HookSetup {
    /// Whether the parts of the set-up fit together.
    pub closed spec fn consistent(self) -> bool {
        &&& self.hooks@.len() < usize::MAX / 2
        &&& self.position <= 2 * self.hooks@.len()
        &&& self.handles@.len() <= self.hooks@.len()
        &&& self.released <= self.handles@.len()
        &&& forall|i: int|
            0 <= i < self.handles@.len() ==> {
                &&& (#[trigger] self.handles@[i]).hook == self.hooks@[i]
                &&& self.handles@[i].state == (if i < self.released {
                    CallState::Released
                } else {
                    CallState::Leaked
                })
            }
        &&& self.failed ==> !self.done ==> self.failure is Some
        &&& !self.failed ==> {
            &&& self.failure is None
            &&& self.released == 0
            &&& if self.done {
                self.handles@.len() == self.hooks@.len()
            } else if self.position == 0 {
                self.handles@.len() == 0
            } else {
                &&& self.handles@.len() == (self.position - 1) / 2
                &&& self.current.hook == self.hooks@[(self.position - 1) / 2]
                &&& self.current.state == (if self.position % 2 == 1 {
                    CallState::Unresolved
                } else {
                    CallState::Compiled
                })
            }
        }
    }

    /// The hooks to set up.
    pub closed spec fn hooks(self) -> Seq<Hook> {
        self.hooks@
    }

    /// The number of compile and pin requests handed out.
    pub closed spec fn position(self) -> nat {
        self.position as nat
    }

    /// The tokens of the handles pinned so far, in order.
    pub closed spec fn tokens(self) -> Seq<u32> {
        Seq::new(self.handles@.len(), |i: int| self.handles@[i].token)
    }

    /// Whether the runtime reported a failure.
    pub closed spec fn failed(self) -> bool {
        self.failed
    }

    /// The failure that the runtime reported, until it is handed out.
    pub closed spec fn failure(self) -> Option<WrenError> {
        self.failure
    }

    /// The number of release requests handed out after a failure.
    pub closed spec fn released(self) -> nat {
        self.released as nat
    }

    /// Whether the result was given out.
    pub closed spec fn finished(self) -> bool {
        self.done
    }

    /// Whether `reply` answers the request handed out last; before the
    /// first request there is nothing to answer.
    pub open spec fn accepts(self, reply: ScriptReply) -> bool {
        &&& self.consistent()
        &&& !self.finished()
        &&& if self.failed() || self.position() == 0 {
            reply is Nothing
        } else if self.position() % 2 == 1 {
            reply is Done || reply is Failed
        } else {
            reply is Pinned || reply is Failed
        }
    }

    /// Begins the set-up of the hooks.
    pub fn new(hooks: Vec<Hook>) -> (setup: Self)
        requires
            hooks@.len() < usize::MAX / 2,
        ensures
            setup.hooks() == hooks@,
            setup.position() == 0,
            setup.tokens() == Seq::<u32>::empty(),
            !setup.failed(),
            setup.released() == 0,
            !setup.finished(),
            setup.consistent(),
    {
        let setup = Self {
            hooks,
            handles: Vec::new(),
            current: CallHandle::new(Hook::Init),
            position: 0,
            failed: false,
            failure: None,
            released: 0,
            done: false,
        };
        assert(setup.tokens() =~= Seq::<u32>::empty());
        setup
    }

    /// Takes the answer to the previous request and gives the next step.
    ///
    /// Without failure the requests of `setup_command` are handed out in
    /// order and the pinned handles are the result. A reported failure is
    /// followed by one release request for each token pinned so far, in
    /// order, and then by the failure as the result.
    pub fn advance(&mut self, reply: ScriptReply) -> (step: SetupStep)
        requires
            old(self).accepts(reply),
        ensures
            final(self).consistent(),
            final(self).hooks() == old(self).hooks(),
            final(self).tokens() == if reply is Pinned {
                old(self).tokens().push(reply->Pinned_0)
            } else {
                old(self).tokens()
            },
            final(self).failed() == (old(self).failed() || reply is Failed),
            match step {
                SetupStep::Call(command) => if final(self).failed() {
                    &&& final(self).failure() == if reply is Failed {
                        Some(reply->Failed_0)
                    } else {
                        old(self).failure()
                    }
                    &&& old(self).released() < final(self).tokens().len()
                    &&& command == ScriptCommand::Release(
                        final(self).tokens()[old(self).released() as int],
                    )
                    &&& final(self).released() == old(self).released() + 1
                    &&& final(self).position() == old(self).position()
                    &&& !final(self).finished()
                } else {
                    &&& old(self).position() < 2 * old(self).hooks().len()
                    &&& command == setup_command(old(self).hooks(), old(self).position() as int)
                    &&& final(self).position() == old(self).position() + 1
                    &&& final(self).released() == 0
                    &&& !final(self).finished()
                },
                SetupStep::Finished(Ok(handles)) => {
                    &&& !final(self).failed()
                    &&& old(self).position() == 2 * old(self).hooks().len()
                    &&& pinned_handles(handles@, old(self).hooks(), final(self).tokens())
                    &&& final(self).finished()
                },
                SetupStep::Finished(Err(e)) => {
                    &&& final(self).failed()
                    &&& Some(e) == if reply is Failed {
                        Some(reply->Failed_0)
                    } else {
                        old(self).failure()
                    }
                    &&& old(self).released() == final(self).tokens().len()
                    &&& final(self).finished()
                },
            },
    {
        let ghost old_tokens = self.tokens();
        match reply {
            ScriptReply::Done => {
                self.current.compiled();
            },
            ScriptReply::Pinned(token) => {
                let mut handle = self.current;
                handle.leaked(token);
                self.handles.push(handle);
                assert(self.tokens() =~= old_tokens.push(token));
            },
            ScriptReply::Failed(error) => {
                self.failed = true;
                self.failure = Some(error);
            },
            ScriptReply::Nothing => {},
        }
        assert(reply is Pinned || self.tokens() =~= old_tokens);
        if self.failed {
            if self.released < self.handles.len() {
                let ghost before = self.tokens();
                let mut handle = self.handles[self.released];
                let command = handle.release();
                self.handles.set(self.released, handle);
                self.released = self.released + 1;
                assert(self.tokens() =~= before);
                return SetupStep::Call(command);
            }
            self.done = true;
            let mut error: Option<WrenError> = None;
            core::mem::swap(&mut error, &mut self.failure);
            return match error {
                Some(e) => SetupStep::Finished(Err(e)),
                None => SetupStep::Finished(Ok(Vec::new())),
            };
        }
        if self.position >= 2 * self.hooks.len() {
            self.done = true;
            let handles = self.handles.clone();
            assert(pinned_handles(handles@, self.hooks@, self.tokens()));
            return SetupStep::Finished(Ok(handles));
        }
        let position = self.position;
        let hook = self.hooks[position / 2];
        self.position = position + 1;
        if position % 2 == 0 {
            self.current = CallHandle::new(hook);
            SetupStep::Call(ScriptCommand::Compile(hook))
        } else {
            SetupStep::Call(ScriptCommand::Leak(hook))
        }
    }
}

} // verus!
