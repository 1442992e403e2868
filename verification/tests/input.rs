use gers::input::{ActionDef, ActionInfo, ElementState, InputMap, MouseButton, VirtualKeyCode};

const W: VirtualKeyCode = VirtualKeyCode(10);
const UP: VirtualKeyCode = VirtualKeyCode(11);
const S: VirtualKeyCode = VirtualKeyCode(12);
const R: VirtualKeyCode = VirtualKeyCode(13);
const UNMAPPED: VirtualKeyCode = VirtualKeyCode(99);

fn definitions() -> Vec<ActionDef> {
    vec![
        ActionDef {
            name: "move_up".to_string(),
            keyboard_keys: Some(vec![W, UP]),
            mouse_buttons: None,
        },
        ActionDef {
            name: "move_down".to_string(),
            keyboard_keys: Some(vec![S, UP]),
            mouse_buttons: Some(vec![MouseButton::Left]),
        },
        ActionDef { name: "restart".to_string(), keyboard_keys: Some(vec![R]), mouse_buttons: None },
        ActionDef { name: "idle".to_string(), keyboard_keys: None, mouse_buttons: None },
    ]
}

fn loaded() -> InputMap {
    let mut map = InputMap::new();
    map.load_definitions(definitions());
    map
}

#[test]
fn action_from_definition() {
    let info = ActionInfo::from(ActionDef {
        name: "jump".to_string(),
        keyboard_keys: None,
        mouse_buttons: Some(vec![MouseButton::Other(4)]),
    });
    assert_eq!(info.name, "jump");
    assert!(info.keyboard_keys.is_empty());
    assert_eq!(info.mouse_buttons, vec![MouseButton::Other(4)]);
}

#[test]
fn actions_are_found_by_name_and_key() {
    let map = loaded();
    assert_eq!(map.action_by_name("move_down").unwrap().keyboard_keys, vec![S, UP]);
    assert!(map.action_by_name("fly").is_none());
    assert_eq!(map.action_by_key(W).unwrap().name, "move_up");
    assert_eq!(map.action_by_key(S).unwrap().name, "move_down");
    assert_eq!(map.action_by_key(UP).unwrap().name, "move_up");
    assert!(map.action_by_key(UNMAPPED).is_none());
    assert!(InputMap::new().action_by_key(W).is_none());
}

#[test]
fn loading_twice_appends() {
    let mut map = loaded();
    map.load_definitions(vec![ActionDef {
        name: "fly".to_string(),
        keyboard_keys: Some(vec![UNMAPPED]),
        mouse_buttons: None,
    }]);
    assert_eq!(map.action_by_key(UNMAPPED).unwrap().name, "fly");
    assert_eq!(map.action_by_key(W).unwrap().name, "move_up");
    assert_eq!(map.action_by_name("fly").unwrap().keyboard_keys, vec![UNMAPPED]);
}

#[test]
fn key_state_follows_the_key() {
    let mut map = loaded();
    assert!(!map.is_action_pressed("move_up"));
    assert!(!map.is_action_released("move_up"));
    map.set_key_pressed(W);
    assert!(map.is_action_pressed("move_up"));
    assert!(!map.is_action_released("move_up"));
    map.set_key_released(W);
    assert!(!map.is_action_pressed("move_up"));
    assert!(map.is_action_released("move_up"));
    map.set_key_state(UNMAPPED, ElementState::Pressed);
    assert!(!map.is_action_pressed("idle"));
}

#[test]
fn release_is_readable_until_the_frame_ends() {
    let mut map = loaded();
    map.set_key_pressed(W);
    map.set_key_pressed(S);
    map.set_key_released(W);
    assert!(map.is_action_released("move_up"));
    assert!(map.is_action_released("move_up"));
    map.clear_releases();
    assert!(!map.is_action_released("move_up"));
    assert!(!map.is_action_pressed("move_up"));
    assert!(map.is_action_pressed("move_down"));
}

#[test]
fn first_key_of_an_action_decides() {
    let mut map = loaded();
    map.set_key_pressed(W);
    map.set_key_released(UP);
    assert!(map.is_action_pressed("move_up"));
    assert!(!map.is_action_released("move_up"));
}
