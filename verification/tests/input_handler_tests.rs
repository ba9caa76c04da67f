use embassy_time::Duration;
use mizet_fw::input_handler::InputHandler;
use mizet_fw::shared::{
    load_main_mode, load_movement_axis, load_pointer_mode, store_main_mode, Button, InputEvent,
    MainMode, ModeChange, MovementAxis, PointerMode, SharedState,
};

fn ticks(ms: u64) -> u64 {
    Duration::from_millis(ms).as_ticks()
}

#[test]
fn tap_on_d_switches_main_mode() {
    let mut h = InputHandler::new();
    let mut s = SharedState::new();
    assert_eq!(h.handle(InputEvent::ButtonPress(Button::D), ticks(1000), &mut s), None);
    assert!(h.button_d_pressed);
    assert_eq!(h.handle(InputEvent::ButtonRelease(Button::D), ticks(1249), &mut s), Some(ModeChange::MainMode));
    assert_eq!(load_main_mode(&s), MainMode::Mouse);
    assert!(!h.button_d_pressed);
    assert_eq!(h.button_d_press_start, None);
}

#[test]
fn long_press_on_d_switches_nothing() {
    let mut h = InputHandler::new();
    let mut s = SharedState::new();
    h.handle(InputEvent::ButtonPress(Button::D), ticks(1000), &mut s);
    assert_eq!(h.handle(InputEvent::ButtonRelease(Button::D), ticks(1250), &mut s), None);
    assert_eq!(load_main_mode(&s), MainMode::Keyboard);
}

#[test]
fn release_without_press_switches_nothing() {
    let mut h = InputHandler::new();
    let mut s = SharedState::new();
    assert_eq!(h.handle(InputEvent::ButtonRelease(Button::D), ticks(5), &mut s), None);
    assert_eq!(load_main_mode(&s), MainMode::Keyboard);
}

#[test]
fn encoder_button_switches_sub_modes_in_mouse_mode_only() {
    let mut h = InputHandler::new();
    let mut s = SharedState::new();
    assert_eq!(h.handle(InputEvent::ButtonPress(Button::Encoder), 0, &mut s), None);
    assert_eq!(load_movement_axis(&s), MovementAxis::Y);
    store_main_mode(&mut s, MainMode::Mouse);
    assert_eq!(h.handle(InputEvent::ButtonPress(Button::Encoder), 0, &mut s), Some(ModeChange::SubMode));
    assert_eq!(load_movement_axis(&s), MovementAxis::X);
    assert_eq!(load_pointer_mode(&s), PointerMode::Move);
    h.handle(InputEvent::ButtonPress(Button::D), ticks(10), &mut s);
    assert_eq!(h.handle(InputEvent::ButtonPress(Button::Encoder), ticks(20), &mut s), Some(ModeChange::SubMode));
    assert_eq!(load_pointer_mode(&s), PointerMode::Scroll);
    assert_eq!(load_movement_axis(&s), MovementAxis::X);
    // held through the encoder press: not a tap any more
    assert_eq!(h.handle(InputEvent::ButtonRelease(Button::D), ticks(400), &mut s), None);
    assert_eq!(load_main_mode(&s), MainMode::Mouse);
}

#[test]
fn other_events_change_nothing() {
    let mut h = InputHandler::new();
    let mut s = SharedState::new();
    assert_eq!(h.handle(InputEvent::ButtonPress(Button::A), 0, &mut s), None);
    assert_eq!(h.handle(InputEvent::ButtonRelease(Button::Encoder), 0, &mut s), None);
    assert_eq!(h.handle(InputEvent::Rotary(mizet_fw::shared::Direction::Clockwise), 0, &mut s), None);
    assert_eq!(h, InputHandler::new());
    assert_eq!(load_main_mode(&s), MainMode::Keyboard);
}
