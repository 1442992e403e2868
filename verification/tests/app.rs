use gers::app::{
    pick_config, App, AppAction, AppEvent, AppWindowEvent, ConfigInfo, GersControl, WindowConf,
};
use gers::color::Color;
use gers::input::{ActionDef, ElementState, VirtualKeyCode};
use gers::intern::InternTable;

fn config(num_samples: u8, transparency: Option<bool>) -> ConfigInfo {
    ConfigInfo { num_samples, supports_transparency: transparency }
}

#[test]
fn default_window() {
    let conf = WindowConf::default();
    assert_eq!((conf.width, conf.height, conf.title.as_str()), (640, 480, "gers"));
}

#[test]
fn control_flow_words() {
    let mut control = GersControl::Shutdown;
    assert_eq!(control.to_string(), "shutdown");
    control.set_restart();
    assert_eq!(control, GersControl::Restart);
    assert_eq!(control.to_string(), "restart");
    control.set_shutdown();
    assert_eq!(control, GersControl::Shutdown);
}

#[test]
fn config_choice() {
    assert_eq!(pick_config(&vec![]), None);
    assert_eq!(pick_config(&vec![config(0, None), config(0, Some(false))]), None);
    assert_eq!(pick_config(&vec![config(0, Some(true))]), Some(0));
    assert_eq!(pick_config(&vec![config(4, None), config(8, None), config(2, None)]), Some(1));
    assert_eq!(pick_config(&vec![config(8, Some(false)), config(2, Some(true))]), Some(1));
    assert_eq!(
        pick_config(&vec![config(2, Some(true)), config(8, Some(false)), config(4, Some(true))]),
        Some(2)
    );
    assert_eq!(pick_config(&vec![config(4, Some(true)), config(4, Some(true))]), Some(0));
}

fn app() -> App {
    let mut app = App::new(3);
    app.load_input_conf(vec![ActionDef {
        name: "restart".to_string(),
        keyboard_keys: Some(vec![VirtualKeyCode(1)]),
        mouse_buttons: None,
    }]);
    app
}

fn key(state: ElementState) -> AppEvent {
    AppEvent::WindowEvent {
        window: 3,
        event: AppWindowEvent::KeyboardInput { virtual_keycode: Some(VirtualKeyCode(1)), state },
    }
}

#[test]
fn app_frame_without_layer() {
    let mut app = app();
    app.run();
    assert_eq!(app.handle_event(AppEvent::NewEvents), vec![]);
    assert_eq!(app.handle_event(AppEvent::MainEventsCleared), vec![AppAction::RequestRedraw]);
    assert_eq!(
        app.handle_event(AppEvent::RedrawRequested),
        vec![AppAction::ClearColor(Color::from_rgba(29, 33, 40, 229)), AppAction::SwapBuffers]
    );
    assert_eq!(app.handle_event(AppEvent::Other), vec![]);
    let mut table = InternTable::new();
    assert_eq!(app.finish(&mut table), GersControl::Shutdown);
}

#[test]
fn app_frame_with_layer() {
    let mut app = app();
    app.set_layer();
    app.run();
    assert_eq!(
        app.handle_event(AppEvent::MainEventsCleared),
        vec![AppAction::UpdateLayer, AppAction::RequestRedraw]
    );
}

#[test]
fn app_restart_on_release() {
    let mut app = app();
    app.run();
    app.handle_event(key(ElementState::Pressed));
    assert_eq!(app.handle_event(AppEvent::MainEventsCleared), vec![AppAction::RequestRedraw]);
    assert!(app.input_map().is_action_pressed("restart"));
    app.handle_event(key(ElementState::Released));
    assert_eq!(
        app.handle_event(AppEvent::MainEventsCleared),
        vec![AppAction::Exit, AppAction::RequestRedraw]
    );
    let mut table = InternTable::new();
    let _kept = table.get_or_insert("kept");
    let _ = table.get_or_insert("dropped");
    assert_eq!(app.finish(&mut table), GersControl::Restart);
    assert_eq!(table.len(), 1);

    app.run();
    app.handle_event(AppEvent::NewEvents);
    assert_eq!(app.handle_event(AppEvent::MainEventsCleared), vec![AppAction::RequestRedraw]);
    assert_eq!(app.finish(&mut table), GersControl::Shutdown);
}

#[test]
fn app_window_events() {
    let mut app = app();
    let resized = |width, height| AppEvent::WindowEvent {
        window: 3,
        event: AppWindowEvent::Resized { width, height },
    };
    assert_eq!(
        app.handle_event(resized(10, 20)),
        vec![AppAction::ResizeSurface { width: 10, height: 20 }]
    );
    assert_eq!(app.handle_event(resized(0, 20)), vec![]);
    assert_eq!(app.handle_event(resized(10, 0)), vec![]);
    let close = AppEvent::WindowEvent { window: 3, event: AppWindowEvent::CloseRequested };
    assert_eq!(app.handle_event(close), vec![AppAction::Exit]);
    let elsewhere = AppEvent::WindowEvent { window: 4, event: AppWindowEvent::CloseRequested };
    assert_eq!(app.handle_event(elsewhere), vec![]);
    let other_key = AppEvent::WindowEvent {
        window: 4,
        event: AppWindowEvent::KeyboardInput {
            virtual_keycode: Some(VirtualKeyCode(1)),
            state: ElementState::Pressed,
        },
    };
    app.handle_event(other_key);
    assert!(!app.input_map().is_action_pressed("restart"));
}
