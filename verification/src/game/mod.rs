//! The game session: the frame loop's decisions and the call handles that
//! it holds.

pub mod event;
pub mod game;
pub mod input;

pub use self::event::{
    Action, ControlFlow, Dispatch, DispatchStep, ElementState, Event, FailurePolicy, MouseButton,
    Outcome, WindowEvent,
};
pub use self::game::{init_game, init_graphic_device, Game, GraphicDeviceHooks};
pub use self::input::{Keyboard, Mouse};
