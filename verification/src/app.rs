//! Application wrapper
//!
//! The decisions of the application's event loop. A key that went up
//! reads as released for one frame: the releases are cleared when the next
//! frame's events begin. A request to close the window ends the loop; the
//! release of the restart action ends it with the request to start again.

use vstd::prelude::*;
use crate::color::Color;
use crate::input::{
    find_action_state, pressed_records, ActionDef, ElementState, InputMap, MouseButton,
    VirtualKeyCode,
};
use crate::smol::smol_text;
use crate::intern::{select, InternStr, InternTable};

verus! {

pub struct WindowConf {
    pub width: u32,
    pub height: u32,
    pub title: String,
}

impl WindowConf {
    /// A window of 640 by 480 with the engine's name as title.
    pub fn default() -> (conf: Self)
        ensures
            conf.width == 640,
            conf.height == 480,
            conf.title@ == "gers"@,
    {
        Self { width: 640, height: 480, title: String::from_str("gers") }
    }
}

/// GERS application control flow.
///
/// This is to notify the program on why the application stopped.
#[derive(Debug, Clone, Copy, PartialEq, Eq)]
pub enum GersControl {
    /// Application is done and process can be shutdown.
    Shutdown,
    /// Application requests to be restarted.
    Restart,
}

impl GersControl {
    pub fn set_restart(&mut self)
        ensures
            *final(self) == GersControl::Restart,
    {
        *self = GersControl::Restart
    }

    pub fn set_shutdown(&mut self)
        ensures
            *final(self) == GersControl::Shutdown,
    {
        *self = GersControl::Shutdown
    }

    /// The control flow as a word.
    pub fn to_string(&self) -> (s: String)
        ensures
            s@ == match self {
                GersControl::Shutdown => "shutdown"@,
                GersControl::Restart => "restart"@,
            },
    {
        match self {
            GersControl::Shutdown => String::from_str("shutdown"),
            GersControl::Restart => String::from_str("restart"),
        }
    }
}

/// What the choice of a framebuffer configuration looks at.
#[derive(Debug, Clone, Copy, PartialEq, Eq)]
pub struct ConfigInfo {
    /// The number of samples per pixel.
    pub num_samples: u8,
    /// Whether the configuration supports transparency, where that is
    /// known.
    pub supports_transparency: Option<bool>,
}

/// Whether the configuration is known to support transparency.
pub open spec fn transparent(config: ConfigInfo) -> bool {
    config.supports_transparency == Some(true)
}

/// The choice after one more candidate was looked at: the candidate is
/// taken where it is transparent and the choice so far is not, and where it
/// has more samples than the choice so far; a missing choice counts as
/// opaque with no samples.
pub open spec fn choose_config(configs: Seq<ConfigInfo>, best: Option<int>, candidate: int) -> Option<
    int,
> {
    let gains_transparency = transparent(configs[candidate]) && !(best matches Some(b)
        && transparent(configs[b]));
    let more_samples = configs[candidate].num_samples > (match best {
        Some(b) => configs[b].num_samples,
        None => 0,
    });
    if gains_transparency || more_samples {
        Some(candidate)
    } else {
        best
    }
}

/// The position of the configuration chosen among the first `upto`.
pub open spec fn chosen_config(configs: Seq<ConfigInfo>, upto: nat) -> Option<int>
    decreases upto,
{
    if upto == 0 {
        None
    } else {
        choose_config(configs, chosen_config(configs, (upto - 1) as nat), upto - 1)
    }
}

/// Picks a framebuffer configuration: the position of the chosen one, or
/// none where no candidate was ever taken.
pub fn pick_config(configs: &Vec<ConfigInfo>) -> (choice: Option<usize>)
    ensures
        match chosen_config(configs@, configs@.len()) {
            Some(position) => choice == Some(position as usize) && position < configs@.len(),
            None => choice is None,
        },
{
    let mut config: Option<usize> = None;
    let mut i: usize = 0;
    while i < configs.len()
        invariant
            i <= configs@.len(),
            match chosen_config(configs@, i as nat) {
                Some(position) => config == Some(position as usize) && 0 <= position < i,
                None => config is None,
            },
        decreases configs@.len() - i,
    {
        let c = configs[i];
        // Does the next config support transparency?
        let next_transparency = match c.supports_transparency {
            Some(t) => t,
            None => false,
        };
        // Does the previous config support transparency?
        let prev_transparency = match config {
            Some(b) => match configs[b].supports_transparency {
                Some(t) => t,
                None => false,
            },
            None => false,
        };
        // Does the next config support transparency, but the previous config does not?
        let supports_transparency = next_transparency && !prev_transparency;
        // Does the next config have more samples than the previous config?
        let previous_samples: u8 = match config {
            Some(b) => configs[b].num_samples,
            None => 0,
        };
        let more_samples = c.num_samples > previous_samples;
        if supports_transparency || more_samples {
            config = Some(i);
        }
        i += 1;
    }
    config
}

/// An event of the main window.
#[derive(Debug, Clone, Copy, PartialEq, Eq)]
pub enum AppWindowEvent {
    Resized { width: u32, height: u32 },
    KeyboardInput { virtual_keycode: Option<VirtualKeyCode>, state: ElementState },
    CloseRequested,
    Other,
}

/// An event of the application's event loop.
#[derive(Debug, Clone, Copy, PartialEq, Eq)]
pub enum AppEvent {
    /// A new batch of events begins: the start of a frame.
    NewEvents,
    /// All events of the frame were delivered.
    MainEventsCleared,
    /// The window must be drawn.
    RedrawRequested,
    /// An event of the window with the given id.
    WindowEvent { window: u64, event: AppWindowEvent },
    Other,
}

/// One piece of work for the application's event loop.
#[derive(Debug, Clone, Copy, PartialEq, Eq)]
pub enum AppAction {
    /// Leave the event loop.
    Exit,
    /// Let the application layer update.
    UpdateLayer,
    /// Ask the window system for a redraw.
    RequestRedraw,
    /// Clear the surface to the colour.
    ClearColor(Color),
    /// Show the drawn buffer.
    SwapBuffers,
    /// Resize the drawing surface; neither dimension is zero.
    ResizeSurface { width: u32, height: u32 },
}

/// The name of the action whose release restarts the application.
pub const RESTART_ACTION: &'static str = "restart";

/// The colour of the cleared surface.
pub open spec fn background() -> (u8, u8, u8, u8) {
    (29, 33, 40, 229)
}

pub struct App {
    /// Id of the main window.
    main_window: u64,
    /// Mapping of input events to application specified actions.
    input_map: InputMap,
    layer: bool,
    control: GersControl,
}

impl App {
    /// The id of the main window.
    pub closed spec fn window(self) -> u64 {
        self.main_window
    }

    /// The input map.
    pub closed spec fn input(self) -> InputMap {
        self.input_map
    }

    /// Whether an application layer is set.
    pub closed spec fn has_layer(self) -> bool {
        self.layer
    }

    /// Why the event loop ended, or will end as things stand.
    pub closed spec fn control(self) -> GersControl {
        self.control
    }

    /// Whether the restart action was released in this frame.
    pub open spec fn restart_released(self) -> bool {
        find_action_state(self.input().key_states(), RESTART_ACTION@, 0) == Some(
            ElementState::Released,
        )
    }

    /// The work that an event asks for, in order.
    pub open spec fn actions_for(self, event: AppEvent) -> Seq<AppAction> {
        match event {
            AppEvent::MainEventsCleared => (if self.restart_released() {
                seq![AppAction::Exit]
            } else {
                Seq::<AppAction>::empty()
            }) + (if self.has_layer() {
                seq![AppAction::UpdateLayer]
            } else {
                Seq::<AppAction>::empty()
            }) + seq![AppAction::RequestRedraw],
            AppEvent::RedrawRequested => seq![
                AppAction::ClearColor(
                    Color::from_channels(background()),
                ),
                AppAction::SwapBuffers,
            ],
            AppEvent::WindowEvent { window, event } => if window == self.window() {
                match event {
                    AppWindowEvent::Resized { width, height } => if width != 0 && height != 0 {
                        seq![AppAction::ResizeSurface { width, height }]
                    } else {
                        Seq::<AppAction>::empty()
                    },
                    AppWindowEvent::CloseRequested => seq![AppAction::Exit],
                    _ => Seq::<AppAction>::empty(),
                }
            } else {
                Seq::<AppAction>::empty()
            },
            _ => Seq::<AppAction>::empty(),
        }
    }

    /// The key states after the event.
    pub open spec fn states_after(self, event: AppEvent) -> Seq<crate::input::KeyRecord> {
        match event {
            AppEvent::NewEvents => pressed_records(self.input().key_states()),
            AppEvent::WindowEvent {
                window,
                event: AppWindowEvent::KeyboardInput { virtual_keycode: Some(keycode), state },
            } => if window == self.window() {
                self.input().states_after(keycode, state)
            } else {
                self.input().key_states()
            },
            _ => self.input().key_states(),
        }
    }

    /// The application for the main window of the given id, without
    /// actions and without layer.
    pub fn new(main_window: u64) -> (app: Self)
        ensures
            app.window() == main_window,
            app.input().wf(),
            app.input().actions() == Seq::<crate::input::ActionInfo>::empty(),
            app.input().key_states() == Seq::<crate::input::KeyRecord>::empty(),
            !app.has_layer(),
            app.control() == GersControl::Shutdown,
    {
        Self {
            main_window,
            input_map: InputMap::new(),
            layer: false,
            control: GersControl::Shutdown,
        }
    }

    /// Load input mappings from the definitions read from a file.
    pub fn load_input_conf(&mut self, definitions: Vec<ActionDef>)
        ensures
            final(self).window() == old(self).window(),
            final(self).has_layer() == old(self).has_layer(),
            final(self).control() == old(self).control(),
            final(self).input().wf(),
            final(self).input().key_states() == old(self).input().key_states(),
            final(self).input().actions().len() == old(self).input().actions().len()
                + definitions@.len(),
            forall|i: int|
                0 <= i < old(self).input().actions().len() ==> final(self).input().actions()[i]
                    == old(self).input().actions()[i],
            forall|i: int|
                0 <= i < definitions@.len() ==> {
                    let info = #[trigger] final(self).input().actions()[old(
                        self,
                    ).input().actions().len() + i];
                    let def = definitions@[i];
                    &&& smol_text(info.name) == def.name@
                    &&& info.keyboard_keys@ == match def.keyboard_keys {
                        Some(keys) => keys@,
                        None => Seq::<VirtualKeyCode>::empty(),
                    }
                    &&& info.mouse_buttons@ == match def.mouse_buttons {
                        Some(buttons) => buttons@,
                        None => Seq::<MouseButton>::empty(),
                    }
                },
    {
        self.input_map.load_definitions(definitions)
    }

    /// Records that an application layer is set.
    pub fn set_layer(&mut self)
        ensures
            final(self).has_layer(),
            final(self).window() == old(self).window(),
            final(self).input() == old(self).input(),
            final(self).control() == old(self).control(),
    {
        self.layer = true;
    }

    /// The input map.
    pub fn input_map(&self) -> (map: &InputMap)
        ensures
            *map == self.input(),
    {
        &self.input_map
    }

    /// Begins a run of the event loop: unless a restart is asked for, the
    /// run ends in a shutdown.
    pub fn run(&mut self)
        ensures
            final(self).control() == GersControl::Shutdown,
            final(self).window() == old(self).window(),
            final(self).input() == old(self).input(),
            final(self).has_layer() == old(self).has_layer(),
    {
        self.control.set_shutdown();
    }

    /// Dispatch single event of a run.
    pub fn handle_event(&mut self, event: AppEvent) -> (actions: Vec<AppAction>)
        requires
            old(self).input().wf(),
        ensures
            actions@ == old(self).actions_for(event),
            final(self).window() == old(self).window(),
            final(self).has_layer() == old(self).has_layer(),
            final(self).input().wf(),
            final(self).input().actions() == old(self).input().actions(),
            final(self).input().key_states() == old(self).states_after(event),
            final(self).control() == if event is MainEventsCleared && old(self).restart_released() {
                GersControl::Restart
            } else {
                old(self).control()
            },
    {
        let mut actions: Vec<AppAction> = Vec::new();
        match event {
            AppEvent::NewEvents => {
                // Frame start.
                self.input_map.clear_releases();
            },
            AppEvent::MainEventsCleared => {
                // Application update code.
                if self.input_map.is_action_released(RESTART_ACTION) {
                    actions.push(AppAction::Exit);
                    self.control.set_restart();
                }
                if self.layer {
                    actions.push(AppAction::UpdateLayer);
                }
                actions.push(AppAction::RequestRedraw);
            },
            AppEvent::RedrawRequested => {
                actions.push(AppAction::ClearColor(Color::from_rgba(29, 33, 40, 229)));
                actions.push(AppAction::SwapBuffers);
            },
            AppEvent::WindowEvent { window, event } => {
                if window == self.main_window {
                    match event {
                        AppWindowEvent::Resized { width, height } => {
                            // Zero sized surface is invalid.
                            if width != 0 && height != 0 {
                                actions.push(AppAction::ResizeSurface { width, height });
                            }
                        },
                        AppWindowEvent::KeyboardInput { virtual_keycode, state } => {
                            match virtual_keycode {
                                Some(keycode) => {
                                    self.input_map.set_key_state(keycode, state);
                                },
                                None => {},
                            }
                        },
                        AppWindowEvent::CloseRequested => {
                            actions.push(AppAction::Exit);
                        },
                        AppWindowEvent::Other => {},
                    }
                }
            },
            AppEvent::Other => {},
        }
        assert(actions@ =~= old(self).actions_for(event));
        actions
    }

    /// Ends a run of the event loop: collects the garbage of the string
    /// table and tells why the loop ended.
    pub fn finish(&self, table: &mut InternTable) -> (control: GersControl)
        requires
            old(table).wf(),
        ensures
            control == self.control(),
            final(table).wf(),
            exists|keep: Seq<bool>|
                keep.len() == old(table).texts().len() && final(table).texts() == select(
                    old(table).texts(),
                    keep,
                ),
    {
        InternStr::gc(table);
        self.control
    }
}

} // verus!
