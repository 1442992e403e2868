//! The script hooks for mouse and keyboard input.

use vstd::prelude::*;
use crate::game::event::{Action, ElementState, MouseButton};
use crate::script::call::{CallArgs, CallHandle, CallState, Hook};

verus! {

impl CallHandle {
    /// The action that calls the pinned function with the arguments.
    pub fn invoke(&self, args: CallArgs) -> (action: Action)
        requires
            self.state() == CallState::Leaked,
        ensures
            action == (Action::Invoke { token: self.token(), hook: self.hook(), args }),
    {
        Action::Invoke { token: self.get_token(), hook: self.get_hook(), args }
    }
}

/// The number under which a script knows a mouse button.
pub open spec fn button_id(button: MouseButton) -> i32 {
    match button {
        MouseButton::Left => 1,
        MouseButton::Middle => 2,
        MouseButton::Right => 3,
        MouseButton::Other(_) => 0,
    }
}

pub struct Mouse {
    pub set_pos: CallHandle,
    pub push_button: CallHandle,
}

impl Mouse {
    /// Whether both handles are pinned and call the mouse hooks.
    pub open spec fn wf(self) -> bool {
        &&& self.set_pos.state() == CallState::Leaked
        &&& self.set_pos.hook() == Hook::MouseSetPos
        &&& self.push_button.state() == CallState::Leaked
        &&& self.push_button.hook() == Hook::MousePushButton
    }

    /// The call that tells the script the cursor's position.
    pub fn set_pos(&self) -> (action: Action)
        requires
            self.wf(),
        ensures
            action == (Action::Invoke {
                token: self.set_pos.token(),
                hook: Hook::MouseSetPos,
                args: CallArgs::Cursor,
            }),
    {
        self.set_pos.invoke(CallArgs::Cursor)
    }

    /// The call that tells the script that one of the three main buttons
    /// went down or up.
    pub fn push_button(&self, button: MouseButton, state: ElementState) -> (action: Action)
        requires
            self.wf(),
            !(button is Other),
        ensures
            action == (Action::Invoke {
                token: self.push_button.token(),
                hook: Hook::MousePushButton,
                args: CallArgs::Button { id: button_id(button), pressed: state is Pressed },
            }),
    {
        let button_id: i32 = match button {
            MouseButton::Left => 1,
            MouseButton::Middle => 2,
            MouseButton::Right => 3,
            MouseButton::Other(_) => 0,
        };
        let state_bool = match state {
            ElementState::Pressed => true,
            ElementState::Released => false,
        };
        self.push_button.invoke(CallArgs::Button { id: button_id, pressed: state_bool })
    }
}

pub struct Keyboard {
    pub set_key_press: CallHandle,
    pub set_key_release: CallHandle,
    pub push_char: CallHandle,
}

impl Keyboard {
    /// Whether the three handles are pinned and call the keyboard hooks.
    pub open spec fn wf(self) -> bool {
        &&& self.set_key_press.state() == CallState::Leaked
        &&& self.set_key_press.hook() == Hook::KeyPress
        &&& self.set_key_release.state() == CallState::Leaked
        &&& self.set_key_release.hook() == Hook::KeyRelease
        &&& self.push_char.state() == CallState::Leaked
        &&& self.push_char.hook() == Hook::PushChar
    }

    /// The call that tells the script that the key of the given name went
    /// down or up.
    pub fn set_key_state(&self, key: String, state: ElementState) -> (action: Action)
        requires
            self.wf(),
        ensures
            action == match state {
                ElementState::Pressed => Action::Invoke {
                    token: self.set_key_press.token(),
                    hook: Hook::KeyPress,
                    args: CallArgs::Text(key),
                },
                ElementState::Released => Action::Invoke {
                    token: self.set_key_release.token(),
                    hook: Hook::KeyRelease,
                    args: CallArgs::Text(key),
                },
            },
    {
        match state {
            ElementState::Pressed => self.set_key_press.invoke(CallArgs::Text(key)),
            ElementState::Released => self.set_key_release.invoke(CallArgs::Text(key)),
        }
    }

    /// The call that hands a typed character to the script.
    pub fn push_char(&self, input: char) -> (action: Action)
        requires
            self.wf(),
        ensures
            action == (Action::Invoke {
                token: self.push_char.token(),
                hook: Hook::PushChar,
                args: CallArgs::Char(input),
            }),
    {
        self.push_char.invoke(CallArgs::Char(input))
    }
}

} // verus!
