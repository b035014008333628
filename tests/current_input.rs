use input_helper::current_input::{
    CurrentInput, HostEvent, InputEvent, KeyAction, MouseAction, ScanCodeAction, TextChar,
};
use input_helper::identity::{Key, KeyCode, MouseButton};

fn a() -> Key {
    Key::Character("a".to_string())
}

const KEY_A: KeyCode = KeyCode::Scancode(19);

fn key(k: Key, c: KeyCode, pressed: bool) -> InputEvent {
    InputEvent::KeyboardInput { logical_key: k, physical_key: c, pressed }
}

#[test]
fn fresh_state_is_empty() {
    let input = CurrentInput::new();
    assert!(!input.key_held(&a()));
    assert!(!input.key_pressed(&a()));
    assert!(!input.key_held_scancode(KEY_A));
    assert!(!input.mouse_held(MouseButton::Left));
    assert!(input.text().is_empty());
    assert!(!input.close_requested());
    assert!(!input.destroyed());
}

#[test]
fn press_then_step_keeps_key_held_until_release() {
    let mut input = CurrentInput::new();
    input.handle_event(&key(a(), KEY_A, true));
    input.step();
    assert!(input.key_held(&a()));
    input.step();
    input.step();
    assert!(input.key_held(&a()));
    input.handle_event(&key(a(), KEY_A, false));
    assert!(!input.key_held(&a()));
    input.step();
    assert!(!input.key_held(&a()));
}

#[test]
fn pressed_fires_once_with_repeats() {
    let mut input = CurrentInput::new();
    input.handle_event(&key(a(), KEY_A, true));
    input.handle_event(&key(a(), KEY_A, true));
    input.handle_event(&key(a(), KEY_A, true));
    assert!(input.key_pressed(&a()));
    assert!(input.key_pressed_os(&a()));
    assert!(input.key_pressed_scancode(KEY_A));
    assert!(input.key_pressed_os_scancode(KEY_A));
    let edges = input.key_actions().iter().filter(|x| matches!(x, KeyAction::Pressed(_))).count();
    assert_eq!(edges, 1);
    assert_eq!(input.key_actions().len(), 4);
    assert_eq!(
        input.scancode_actions().to_vec(),
        vec![
            ScanCodeAction::Pressed(KEY_A),
            ScanCodeAction::PressedOs(KEY_A),
            ScanCodeAction::PressedOs(KEY_A),
            ScanCodeAction::PressedOs(KEY_A),
        ]
    );

    input.step();
    input.handle_event(&key(a(), KEY_A, true));
    assert!(!input.key_pressed(&a()));
    assert!(input.key_pressed_os(&a()));
    assert!(!input.key_pressed_scancode(KEY_A));

    input.step();
    assert!(!input.key_pressed(&a()));
    assert!(!input.key_pressed_os(&a()));
    assert!(input.key_held(&a()));
}

#[test]
fn release_of_released_key_is_idempotent() {
    let mut input = CurrentInput::new();
    input.handle_event(&key(a(), KEY_A, false));
    assert!(!input.key_held(&a()));
    assert!(input.key_released(&a()));
    assert!(input.key_released_scancode(KEY_A));
    input.handle_event(&key(a(), KEY_A, false));
    assert!(!input.key_held(&a()));
    assert_eq!(input.key_actions().len(), 2);
}

#[test]
fn logical_and_physical_namespaces_are_independent() {
    let mut input = CurrentInput::new();
    let key_q = KeyCode::Scancode(32);
    // A layout where the physical Q key produces "a".
    input.handle_event(&key(a(), key_q, true));
    assert!(input.key_held(&a()));
    assert!(input.key_held_scancode(key_q));
    assert!(!input.key_held_scancode(KEY_A));
    assert!(!input.key_held(&Key::Character("q".to_string())));
}

#[test]
fn different_characters_are_different_keys() {
    let mut input = CurrentInput::new();
    input.handle_event(&key(Key::Character("A".to_string()), KEY_A, true));
    assert!(input.key_held(&Key::Character("A".to_string())));
    assert!(!input.key_held(&a()));
    assert!(!input.key_held(&Key::Named("Enter".to_string())));
    assert!(!input.key_held(&Key::Dead(Some('A'))));
}

#[test]
fn text_keeps_order_with_backspace() {
    let mut input = CurrentInput::new();
    input.handle_event(&InputEvent::ReceivedCharacter('h'));
    input.handle_event(&InputEvent::ReceivedCharacter('i'));
    input.handle_event(&key(Key::Backspace, KeyCode::Scancode(42), true));
    input.handle_event(&InputEvent::ReceivedCharacter('x'));
    assert_eq!(
        input.text(),
        vec![TextChar::Char('h'), TextChar::Char('i'), TextChar::Back, TextChar::Char('x')]
    );
    input.step();
    assert!(input.text().is_empty());
}

#[test]
fn control_characters_stay_out_of_text() {
    let mut input = CurrentInput::new();
    input.handle_event(&InputEvent::ReceivedCharacter('\u{8}'));
    input.handle_event(&InputEvent::ReceivedCharacter('\r'));
    input.handle_event(&InputEvent::ReceivedCharacter('\n'));
    input.handle_event(&InputEvent::ReceivedCharacter('z'));
    assert_eq!(input.text(), vec![TextChar::Char('z')]);
}

#[test]
fn mouse_buttons_have_edges_and_level() {
    let mut input = CurrentInput::new();
    input.handle_event(&InputEvent::MouseInput { button: MouseButton::Left, pressed: true });
    assert!(input.mouse_pressed(MouseButton::Left));
    assert!(input.mouse_held(MouseButton::Left));
    assert!(!input.mouse_held(MouseButton::Right));
    input.step();
    assert!(!input.mouse_pressed(MouseButton::Left));
    assert!(input.mouse_held(MouseButton::Left));
    input.handle_event(&InputEvent::MouseInput { button: MouseButton::Left, pressed: false });
    assert!(input.mouse_released(MouseButton::Left));
    assert!(!input.mouse_held(MouseButton::Left));
    assert_eq!(input.mouse_actions().to_vec(), vec![MouseAction::Released(MouseButton::Left)]);
}

#[test]
fn window_flags_are_one_shot() {
    let mut input = CurrentInput::new();
    input.handle_event(&InputEvent::CloseRequested);
    input.handle_event(&InputEvent::Destroyed);
    assert!(input.close_requested());
    assert!(input.destroyed());
    input.step();
    assert!(!input.close_requested());
    assert!(!input.destroyed());
}

#[test]
fn other_events_change_nothing() {
    let mut input = CurrentInput::new();
    input.handle_event(&InputEvent::Other);
    assert!(input.key_actions().is_empty());
    assert!(input.text().is_empty());
}

#[test]
fn update_reports_tick_completion() {
    let mut input = CurrentInput::new();
    assert!(!input.update(&HostEvent::NewTick));
    assert!(!input.update(&HostEvent::Input(key(a(), KEY_A, true))));
    assert!(input.update(&HostEvent::TickComplete));
    assert!(input.key_pressed(&a()));
    assert!(!input.update(&HostEvent::NewTick));
    assert!(!input.key_pressed(&a()));
    assert!(input.key_held(&a()));
}
