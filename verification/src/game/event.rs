//! The events of the window system and the work that the event loop does
//! in answer, as plain values.

use vstd::prelude::*;
use crate::script::call::{CallArgs, Hook};
use crate::script::errors::{GersError, WrenError};

verus! {

/// Whether a key or button went down or up.
#[derive(Debug, Clone, Copy, PartialEq, Eq)]
pub enum ElementState {
    Pressed,
    Released,
}

/// A button of the mouse.
#[derive(Debug, Clone, Copy, PartialEq, Eq)]
pub enum MouseButton {
    Left,
    Right,
    Middle,
    Other(u16),
}

/// An event of one window.
#[derive(Debug, Clone, PartialEq, Eq)]
pub enum WindowEvent {
    CloseRequested,
    Resized { width: u32, height: u32 },
    ScaleFactorChanged,
    MouseInput { button: MouseButton, state: ElementState },
    CursorMoved,
    ReceivedCharacter(char),
    /// A key event; `key` is the name of the virtual key, where the key has
    /// one.
    KeyboardInput { key: Option<String>, state: ElementState },
    Other,
}

/// An event of the event loop.
#[derive(Debug, Clone, PartialEq, Eq)]
pub enum Event {
    /// A new batch of events begins: the boundary between two frames.
    NewEvents,
    /// An event of the window with the given id.
    WindowEvent { window: u64, event: WindowEvent },
    /// All events of the frame were delivered.
    MainEventsCleared,
    /// The window must be drawn.
    RedrawRequested,
    /// All redraws of the frame were delivered.
    RedrawEventsCleared,
    /// The loop ends.
    LoopDestroyed,
    Other,
}

/// Whether the event loop goes on.
#[derive(Debug, Clone, Copy, PartialEq, Eq)]
pub enum ControlFlow {
    Poll,
    Exit,
}

/// One piece of work for the event loop.
#[derive(Debug, Clone, PartialEq, Eq)]
pub enum Action {
    /// Measure the time since the previous frame and feed the frame
    /// counter.
    MarkFrameStart,
    /// Resize the drawing surface.
    ResizeSurface { width: u32, height: u32 },
    /// Keep the scale factor that the event carries.
    StoreScaleFactor,
    /// Call the pinned script function with the arguments.
    Invoke { token: u32, hook: Hook, args: CallArgs },
    /// Show the title, followed by the frame rate.
    UpdateTitle(String),
    /// Ask the window system for a redraw.
    RequestRedraw,
    /// Show the drawn buffer.
    SwapBuffers,
    /// Wait out the rest of the frame.
    Throttle,
    /// Call the shutdown function of the bootstrap class.
    Shutdown,
}

/// What becomes of a failed call.
#[derive(Debug, Clone, Copy, PartialEq, Eq)]
pub enum FailurePolicy {
    /// The work of the event is abandoned and the failure is handed up.
    Propagate,
    /// The failure is a programming error: the program does not go on.
    Fatal,
}

/// The policy for a failed call of a hook. The hooks of a frame and of the
/// start-up hand their failure up; a failed input or resize hook is fatal.
pub open spec fn failure_policy(hook: Hook) -> FailurePolicy {
    match hook {
        Hook::Init | Hook::SetDeltaTime | Hook::Update | Hook::Draw | Hook::Maintain => {
            FailurePolicy::Propagate
        },
        _ => FailurePolicy::Fatal,
    }
}

impl Action {
    /// Whether a failure of the action is handed up.
    pub open spec fn may_fail(self) -> bool {
        self matches Action::Invoke { hook, .. } && failure_policy(hook) == FailurePolicy::Propagate
    }

    /// The policy for a failure of the action; only a call can fail.
    pub fn on_failure(&self) -> (policy: FailurePolicy)
        ensures
            policy == (if self.may_fail() {
                FailurePolicy::Propagate
            } else {
                FailurePolicy::Fatal
            }),
    {
        match self {
            Action::Invoke { hook, .. } => match hook {
                Hook::Init | Hook::SetDeltaTime | Hook::Update | Hook::Draw | Hook::Maintain => {
                    FailurePolicy::Propagate
                },
                _ => FailurePolicy::Fatal,
            },
            _ => FailurePolicy::Fatal,
        }
    }
}

/// How the previous action ended.
#[derive(Debug, Clone, PartialEq, Eq)]
pub enum Outcome {
    /// No action was performed yet.
    Nothing,
    /// The action was performed.
    Done,
    /// The call failed.
    Failed(WrenError),
}

/// What a dispatch asks for next.
#[derive(Debug)]
pub enum DispatchStep {
    /// Perform this action and hand its outcome to the next call.
    Perform(Action),
    /// The work of the event is over.
    Finished(Result<(), GersError>),
}

/// The work for one event, handed out action by action. A failed call ends
/// the work: the actions behind it are not performed.
#[derive(Debug)]
pub struct Dispatch {
    actions: Vec<Action>,
    last: Option<bool>,
    done: bool,
}

impl Dispatch {
    /// The actions not handed out yet.
    pub closed spec fn remaining(self) -> Seq<Action> {
        self.actions@
    }

    /// Whether an action was handed out, and whether a failure of the one
    /// handed out last is handed up.
    pub closed spec fn last(self) -> Option<bool> {
        self.last
    }

    /// Whether the result was given out.
    pub closed spec fn finished(self) -> bool {
        self.done
    }

    /// Whether `outcome` tells how the action handed out last ended. Only an
    /// action whose failure is handed up may be reported as failed.
    pub open spec fn accepts(self, outcome: Outcome) -> bool {
        &&& !self.finished()
        &&& match self.last() {
            None => outcome is Nothing,
            Some(may_fail) => outcome is Done || (outcome is Failed && may_fail),
        }
    }

    /// The dispatch of a list of actions.
    pub fn new(actions: Vec<Action>) -> (dispatch: Self)
        ensures
            dispatch.remaining() == actions@,
            dispatch.last() is None,
            !dispatch.finished(),
    {
        Self { actions, last: None, done: false }
    }

    /// Takes the outcome of the previous action and gives the next step:
    /// after a failure the result with the failure, else the next action,
    /// and after the last action the result.
    pub fn advance(&mut self, outcome: Outcome) -> (step: DispatchStep)
        requires
            old(self).accepts(outcome),
        ensures
            match step {
                DispatchStep::Perform(action) => {
                    &&& !(outcome is Failed)
                    &&& old(self).remaining().len() > 0
                    &&& action == old(self).remaining()[0]
                    &&& final(self).remaining() == old(self).remaining().drop_first()
                    &&& final(self).last() == Some(action.may_fail())
                    &&& !final(self).finished()
                },
                DispatchStep::Finished(Ok(_)) => {
                    &&& !(outcome is Failed)
                    &&& old(self).remaining().len() == 0
                    &&& final(self).finished()
                },
                DispatchStep::Finished(Err(e)) => {
                    &&& outcome is Failed
                    &&& e == GersError::Wren(outcome->Failed_0)
                    &&& final(self).finished()
                },
            },
    {
        match outcome {
            Outcome::Failed(error) => {
                self.done = true;
                return DispatchStep::Finished(Err(GersError::Wren(error)));
            },
            _ => {},
        }
        if self.actions.len() == 0 {
            self.done = true;
            return DispatchStep::Finished(Ok(()));
        }
        let action = self.actions.remove(0);
        let may_fail = match action.on_failure() {
            FailurePolicy::Propagate => true,
            FailurePolicy::Fatal => false,
        };
        self.last = Some(may_fail);
        assert(self.actions@ =~= old(self).actions@.drop_first());
        DispatchStep::Perform(action)
    }
}

} // verus!
