//! Game script entrypoint and hooks.
//!
//! A frame passes through four phases in strict order: the events of the
//! window system are delivered and the input hooks called; the update hook
//! runs; the draw hook runs and the buffer is shown; the graphic device
//! releases what was let go. The session holds the pinned call handles of
//! all hooks and releases every one of them before the script runtime is
//! destroyed.

use vstd::prelude::*;
use crate::game::event::{
    Action, ControlFlow, Dispatch, ElementState, Event, MouseButton, WindowEvent,
};
use crate::game::input::{button_id, Keyboard, Mouse};
use crate::script::call::{
    pinned_handles, CallArgs, CallHandle, CallState, Hook, HookSetup, ScriptCommand,
};
use crate::script::errors::GersError;
use crate::text::same_text;

verus! {

/// The hooks of a game session, in the order in which they are set up.
pub open spec fn game_hooks() -> Seq<Hook> {
    seq![
        Hook::SetDeltaTime,
        Hook::Init,
        Hook::Update,
        Hook::Draw,
        Hook::MouseSetPos,
        Hook::MousePushButton,
        Hook::KeyPress,
        Hook::KeyRelease,
        Hook::PushChar,
    ]
}

/// The hooks of the graphic device, in the order in which they are set up.
pub open spec fn graphic_device_hooks() -> Seq<Hook> {
    seq![Hook::SetViewport, Hook::Maintain]
}

/// Begins the set-up of the hooks of the graphic device. The device itself
/// has to be stored in the script runtime before.
pub fn init_graphic_device() -> (setup: HookSetup)
    ensures
        setup.hooks() == graphic_device_hooks(),
        setup.position() == 0,
        setup.tokens() == Seq::<u32>::empty(),
        !setup.failed(),
        !setup.finished(),
        setup.consistent(),
{
    let mut hooks: Vec<Hook> = Vec::new();
    hooks.push(Hook::SetViewport);
    hooks.push(Hook::Maintain);
    assert(hooks@ =~= graphic_device_hooks());
    HookSetup::new(hooks)
}

/// Begins the set-up of the hooks of a game session.
pub fn init_game() -> (setup: HookSetup)
    ensures
        setup.hooks() == game_hooks(),
        setup.position() == 0,
        setup.tokens() == Seq::<u32>::empty(),
        !setup.failed(),
        !setup.finished(),
        setup.consistent(),
{
    let mut hooks: Vec<Hook> = Vec::new();
    hooks.push(Hook::SetDeltaTime);
    hooks.push(Hook::Init);
    hooks.push(Hook::Update);
    hooks.push(Hook::Draw);
    hooks.push(Hook::MouseSetPos);
    hooks.push(Hook::MousePushButton);
    hooks.push(Hook::KeyPress);
    hooks.push(Hook::KeyRelease);
    hooks.push(Hook::PushChar);
    assert(hooks@ =~= game_hooks());
    HookSetup::new(hooks)
}

/// Handles to the script functions of the graphic device.
pub struct GraphicDeviceHooks {
    pub set_viewport_handle: CallHandle,
    pub maintain_handle: CallHandle,
}

impl GraphicDeviceHooks {
    /// Whether both handles are pinned and call the device's hooks.
    pub open spec fn wf(self) -> bool {
        &&& self.set_viewport_handle.state() == CallState::Leaked
        &&& self.set_viewport_handle.hook() == Hook::SetViewport
        &&& self.maintain_handle.state() == CallState::Leaked
        &&& self.maintain_handle.hook() == Hook::Maintain
    }

    /// The hooks from the handles that their set-up pinned.
    pub fn new(handles: &Vec<CallHandle>) -> (hooks: Self)
        requires
            exists|tokens: Seq<u32>| pinned_handles(handles@, graphic_device_hooks(), tokens),
        ensures
            hooks.wf(),
            hooks.set_viewport_handle == handles@[0],
            hooks.maintain_handle == handles@[1],
    {
        Self { set_viewport_handle: handles[0], maintain_handle: handles[1] }
    }
}

pub struct Game {
    window_title: String,
    main_window: u64,
    graphic_hooks: GraphicDeviceHooks,
    set_delta_time: CallHandle,
    init: CallHandle,
    update: CallHandle,
    draw_handle: CallHandle,
    mouse: Mouse,
    keyboard: Keyboard,
    control_flow: ControlFlow,
    result: Option<GersError>,
}

impl Game {
    /// Whether every handle of the session is pinned and calls its hook.
    pub closed spec fn wf(self) -> bool {
        &&& self.graphic_hooks.wf()
        &&& self.mouse.wf()
        &&& self.keyboard.wf()
        &&& self.set_delta_time.state() == CallState::Leaked
        &&& self.set_delta_time.hook() == Hook::SetDeltaTime
        &&& self.init.state() == CallState::Leaked
        &&& self.init.hook() == Hook::Init
        &&& self.update.state() == CallState::Leaked
        &&& self.update.hook() == Hook::Update
        &&& self.draw_handle.state() == CallState::Leaked
        &&& self.draw_handle.hook() == Hook::Draw
    }

    /// The token of the pinned handle of a hook.
    pub closed spec fn token(self, hook: Hook) -> u32 {
        match hook {
            Hook::SetDeltaTime => self.set_delta_time.token(),
            Hook::Init => self.init.token(),
            Hook::Update => self.update.token(),
            Hook::Draw => self.draw_handle.token(),
            Hook::MouseSetPos => self.mouse.set_pos.token(),
            Hook::MousePushButton => self.mouse.push_button.token(),
            Hook::KeyPress => self.keyboard.set_key_press.token(),
            Hook::KeyRelease => self.keyboard.set_key_release.token(),
            Hook::PushChar => self.keyboard.push_char.token(),
            Hook::SetViewport => self.graphic_hooks.set_viewport_handle.token(),
            Hook::Maintain => self.graphic_hooks.maintain_handle.token(),
        }
    }

    /// The title of the window, without the frame rate.
    pub closed spec fn title(self) -> String {
        self.window_title
    }

    /// The id of the session's window.
    pub closed spec fn window(self) -> u64 {
        self.main_window
    }

    /// Whether the event loop goes on.
    pub closed spec fn control(self) -> ControlFlow {
        self.control_flow
    }

    /// The failure that ended the loop, if one did.
    pub closed spec fn failure(self) -> Option<GersError> {
        self.result
    }

    /// The call of a hook with the arguments.
    pub open spec fn call(self, hook: Hook, args: CallArgs) -> Action {
        Action::Invoke { token: self.token(hook), hook, args }
    }

    /// Whether the session can handle the event: a mouse event names one
    /// of the three main buttons.
    pub open spec fn handles(self, event: Event) -> bool {
        !(event matches Event::WindowEvent {
            event: WindowEvent::MouseInput { button: MouseButton::Other(_), .. },
            ..
        })
    }

    /// The work that an event of the session's window asks for.
    pub open spec fn window_actions(self, event: WindowEvent) -> Seq<Action> {
        match event {
            WindowEvent::Resized { width, height } => seq![
                Action::ResizeSurface { width, height },
                self.call(Hook::SetViewport, CallArgs::Size { width, height }),
            ],
            WindowEvent::ScaleFactorChanged => seq![Action::StoreScaleFactor],
            WindowEvent::MouseInput { button, state } => seq![
                self.call(
                    Hook::MousePushButton,
                    CallArgs::Button { id: button_id(button), pressed: state is Pressed },
                ),
            ],
            WindowEvent::CursorMoved => seq![self.call(Hook::MouseSetPos, CallArgs::Cursor)],
            WindowEvent::ReceivedCharacter(c) => seq![self.call(Hook::PushChar, CallArgs::Char(c))],
            WindowEvent::KeyboardInput { key: Some(name), state } => seq![
                self.call(
                    if state is Pressed {
                        Hook::KeyPress
                    } else {
                        Hook::KeyRelease
                    },
                    CallArgs::Text(name),
                ),
            ],
            _ => Seq::<Action>::empty(),
        }
    }

    /// The work that an event asks for, in order. The update of a frame
    /// comes with the end of the frame's events; the draw is followed by
    /// the showing of the buffer and then by the device's maintenance.
    pub open spec fn actions_for(self, event: Event) -> Seq<Action> {
        match event {
            Event::NewEvents => seq![Action::MarkFrameStart],
            Event::WindowEvent { window, event } => if window == self.window() {
                self.window_actions(event)
            } else {
                Seq::<Action>::empty()
            },
            Event::MainEventsCleared => seq![
                self.call(Hook::SetDeltaTime, CallArgs::DeltaTime),
                self.call(Hook::Update, CallArgs::Empty),
                Action::UpdateTitle(self.title()),
                Action::RequestRedraw,
            ],
            Event::RedrawRequested => seq![
                self.call(Hook::Draw, CallArgs::Empty),
                Action::SwapBuffers,
                self.call(Hook::Maintain, CallArgs::Empty),
            ],
            Event::RedrawEventsCleared => seq![Action::Throttle],
            Event::LoopDestroyed => seq![Action::Shutdown],
            Event::Other => Seq::<Action>::empty(),
        }
    }

    /// Whether the event ends the loop: the request to close the session's
    /// window, and the escape key going down in it.
    pub open spec fn ends_loop(self, event: Event) -> bool {
        event matches Event::WindowEvent { window, event } && window == self.window() && (
        event is CloseRequested || (event matches WindowEvent::KeyboardInput {
            key: Some(name),
            state: ElementState::Pressed,
        } && name@ == "Escape"@))
    }

    /// The session over the handles that `init_graphic_device` and
    /// `init_game` pinned, for the window of the given id and title.
    pub fn new(
        graphic_device_hooks: GraphicDeviceHooks,
        handles: &Vec<CallHandle>,
        window_title: String,
        main_window: u64,
    ) -> (game: Self)
        requires
            graphic_device_hooks.wf(),
            exists|tokens: Seq<u32>| pinned_handles(handles@, game_hooks(), tokens),
        ensures
            game.wf(),
            game.title() == window_title,
            game.window() == main_window,
            game.control() == ControlFlow::Poll,
            game.failure() is None,
            forall|i: int| 0 <= i < 9 ==> game.token(game_hooks()[i]) == handles@[i].token(),
            game.token(Hook::SetViewport) == graphic_device_hooks.set_viewport_handle.token(),
            game.token(Hook::Maintain) == graphic_device_hooks.maintain_handle.token(),
    {
        Self {
            window_title,
            main_window,
            graphic_hooks: graphic_device_hooks,
            set_delta_time: handles[0],
            init: handles[1],
            update: handles[2],
            draw_handle: handles[3],
            mouse: Mouse { set_pos: handles[4], push_button: handles[5] },
            keyboard: Keyboard {
                set_key_press: handles[6],
                set_key_release: handles[7],
                push_char: handles[8],
            },
            control_flow: ControlFlow::Poll,
            result: None,
        }
    }

    /// Starts the session: the call of the initialisation hook, before the
    /// event loop runs. Where it fails the session does not start.
    pub fn run(&self) -> (dispatch: Dispatch)
        requires
            self.wf(),
        ensures
            dispatch.remaining() == seq![self.call(Hook::Init, CallArgs::Empty)],
            dispatch.last() is None,
            !dispatch.finished(),
    {
        let mut actions: Vec<Action> = Vec::new();
        actions.push(self.init.invoke(CallArgs::Empty));
        Dispatch::new(actions)
    }

    /// Dispatch single event.
    pub fn handle_event(&mut self, event: Event) -> (dispatch: Dispatch)
        requires
            old(self).wf(),
            old(self).handles(event),
        ensures
            final(self).wf(),
            final(self).title() == old(self).title(),
            final(self).window() == old(self).window(),
            final(self).failure() == old(self).failure(),
            forall|hook: Hook| final(self).token(hook) == old(self).token(hook),
            final(self).control() == if old(self).ends_loop(event) {
                ControlFlow::Exit
            } else {
                old(self).control()
            },
            dispatch.remaining() == old(self).actions_for(event),
            dispatch.last() is None,
            !dispatch.finished(),
    {
        let mut actions: Vec<Action> = Vec::new();
        match event {
            Event::NewEvents => {
                actions.push(Action::MarkFrameStart);
            },
            Event::WindowEvent { window, event } => {
                if window == self.main_window {
                    match event {
                        WindowEvent::CloseRequested => {
                            self.control_flow = ControlFlow::Exit;
                        },
                        WindowEvent::Resized { width, height } => {
                            actions.push(Action::ResizeSurface { width, height });
                            actions.push(
                                self.graphic_hooks.set_viewport_handle.invoke(
                                    CallArgs::Size { width, height },
                                ),
                            );
                        },
                        WindowEvent::ScaleFactorChanged => {
                            actions.push(Action::StoreScaleFactor);
                        },
                        WindowEvent::MouseInput { button, state } => {
                            actions.push(self.mouse.push_button(button, state));
                        },
                        WindowEvent::CursorMoved => {
                            actions.push(self.mouse.set_pos());
                        },
                        WindowEvent::ReceivedCharacter(c) => {
                            actions.push(self.keyboard.push_char(c));
                        },
                        WindowEvent::KeyboardInput { key, state } => {
                            match key {
                                Some(name) => {
                                    let escape = same_text(name.as_str(), "Escape");
                                    actions.push(self.keyboard.set_key_state(name, state));
                                    match state {
                                        ElementState::Pressed => {
                                            if escape {
                                                self.control_flow = ControlFlow::Exit;
                                            }
                                        },
                                        ElementState::Released => {},
                                    }
                                },
                                None => {},
                            }
                        },
                        WindowEvent::Other => {},
                    }
                }
            },
            Event::MainEventsCleared => {
                actions.push(self.set_delta_time.invoke(CallArgs::DeltaTime));
                actions.push(self.update.invoke(CallArgs::Empty));
                actions.push(Action::UpdateTitle(self.window_title.clone()));
                actions.push(Action::RequestRedraw);
            },
            Event::RedrawRequested => {
                actions.push(self.draw_handle.invoke(CallArgs::Empty));
                actions.push(Action::SwapBuffers);
                actions.push(self.graphic_hooks.maintain_handle.invoke(CallArgs::Empty));
            },
            Event::RedrawEventsCleared => {
                actions.push(Action::Throttle);
            },
            Event::LoopDestroyed => {
                actions.push(Action::Shutdown);
            },
            Event::Other => {},
        }
        assert(actions@ =~= old(self).actions_for(event));
        Dispatch::new(actions)
    }

    /// Takes the result of the work for an event. A failure ends the loop
    /// and is kept as the session's result; of several failures the last
    /// is kept.
    pub fn event_finished(&mut self, result: Result<(), GersError>)
        requires
            old(self).wf(),
        ensures
            final(self).wf(),
            final(self).title() == old(self).title(),
            final(self).window() == old(self).window(),
            forall|hook: Hook| final(self).token(hook) == old(self).token(hook),
            match result {
                Ok(_) => final(self).control() == old(self).control() && final(self).failure()
                    == old(self).failure(),
                Err(e) => final(self).control() == ControlFlow::Exit && final(self).failure()
                    == Some(e),
            },
    {
        match result {
            Ok(_) => {},
            Err(err) => {
                self.control_flow = ControlFlow::Exit;
                self.result = Some(err);
            },
        }
    }

    /// Whether the event loop goes on.
    pub fn control_flow(&self) -> (flow: ControlFlow)
        ensures
            flow == self.control(),
    {
        self.control_flow
    }

    /// The requests that end the session, in order: the handles in the
    /// order `teardown_order`.
    pub open spec fn teardown_commands(self) -> Seq<ScriptCommand> {
        teardown_order().map_values(|hook: Hook| ScriptCommand::Release(self.token(hook))).push(
            ScriptCommand::DestroyVm,
        )
    }

    /// Ends the session. Every call handle is released, and only then is
    /// the runtime destroyed. The session is consumed: no handle can be
    /// invoked once the teardown has begun. The result is the failure that
    /// ended the loop, if one did.
    pub fn teardown(self) -> (end: (Vec<ScriptCommand>, Result<(), GersError>))
        requires
            self.wf(),
        ensures
            end.0@ == self.teardown_commands(),
            end.1 == match self.failure() {
                Some(e) => Err::<(), GersError>(e),
                None => Ok::<(), GersError>(()),
            },
    {
        let mut game = self;
        let mut commands: Vec<ScriptCommand> = Vec::new();
        commands.push(game.graphic_hooks.set_viewport_handle.release());
        commands.push(game.graphic_hooks.maintain_handle.release());
        commands.push(game.set_delta_time.release());
        commands.push(game.init.release());
        commands.push(game.update.release());
        commands.push(game.draw_handle.release());
        commands.push(game.mouse.set_pos.release());
        commands.push(game.mouse.push_button.release());
        commands.push(game.keyboard.set_key_press.release());
        commands.push(game.keyboard.set_key_release.release());
        commands.push(game.keyboard.push_char.release());
        commands.push(ScriptCommand::DestroyVm);
        assert(commands@ =~= self.teardown_commands());
        let result = match game.result {
            Some(e) => Err(e),
            None => Ok(()),
        };
        (commands, result)
    }
}

/// The order in which a session releases its handles.
pub open spec fn teardown_order() -> Seq<Hook> {
    seq![
        Hook::SetViewport,
        Hook::Maintain,
        Hook::SetDeltaTime,
        Hook::Init,
        Hook::Update,
        Hook::Draw,
        Hook::MouseSetPos,
        Hook::MousePushButton,
        Hook::KeyPress,
        Hook::KeyRelease,
        Hook::PushChar,
    ]
}

/// In the teardown of a session every hook's handle is released exactly
/// once, each release stands before the destruction of the runtime, the
/// destruction is the last request, and no request of a teardown calls a
/// script function.
pub proof fn lemma_teardown_releases_first(game: Game, hook: Hook)
    ensures
        game.teardown_commands().len() == 12,
        game.teardown_commands().last() == ScriptCommand::DestroyVm,
        exists|i: int|
            0 <= i < 11 && teardown_order()[i] == hook && game.teardown_commands()[i]
                == ScriptCommand::Release(game.token(hook)),
        forall|i: int, j: int|
            0 <= i < j < 11 ==> teardown_order()[i] != teardown_order()[j],
        forall|i: int|
            0 <= i < 11 ==> game.teardown_commands()[i] == ScriptCommand::Release(
                game.token(teardown_order()[i]),
            ),
{
    let order = teardown_order();
    let position: int = match hook {
        Hook::SetViewport => 0,
        Hook::Maintain => 1,
        Hook::SetDeltaTime => 2,
        Hook::Init => 3,
        Hook::Update => 4,
        Hook::Draw => 5,
        Hook::MouseSetPos => 6,
        Hook::MousePushButton => 7,
        Hook::KeyPress => 8,
        Hook::KeyRelease => 9,
        Hook::PushChar => 10,
    };
    assert(order[position] == hook);
    assert(game.teardown_commands()[position] == ScriptCommand::Release(game.token(hook)));
}

} // verus!
