use embassy_time::Duration;
use mizet_fw::keymap::key_info;
use mizet_fw::shared::{
    Button, Direction, InputEvent, MainMode, ModeChange, Modes, MovementAxis, PointerMode,
};
use mizet_fw::usb_hid::{
    keyboard_release_report, keyboard_report, map_avg_dt_to_move_step, mouse_report,
    rotary_mouse_report, HidController, HidReport, KeyboardReport, MouseReport,
    RotarySpeedEstimator, UsbInputState,
};

fn ticks(ms: u64) -> u64 {
    Duration::from_millis(ms).as_ticks()
}

fn keyboard_modes() -> Modes {
    Modes { main_mode: MainMode::Keyboard, pointer_mode: PointerMode::Move, movement_axis: MovementAxis::Y }
}

fn mouse_modes(p: PointerMode, a: MovementAxis) -> Modes {
    Modes { main_mode: MainMode::Mouse, pointer_mode: p, movement_axis: a }
}

#[test]
fn move_step_bounds_and_linear_part() {
    assert_eq!(map_avg_dt_to_move_step(0), 30);
    assert_eq!(map_avg_dt_to_move_step(70), 30);
    assert_eq!(map_avg_dt_to_move_step(71), 30);
    assert_eq!(map_avg_dt_to_move_step(155), 18);
    assert_eq!(map_avg_dt_to_move_step(239), 6);
    assert_eq!(map_avg_dt_to_move_step(240), 5);
    assert_eq!(map_avg_dt_to_move_step(u32::MAX), 5);
}

#[test]
fn move_step_never_grows_when_slower() {
    let mut last = map_avg_dt_to_move_step(0);
    for dt in 1..400u32 {
        let step = map_avg_dt_to_move_step(dt);
        assert!(step <= last);
        assert!((5..=30).contains(&step));
        last = step;
    }
}

#[test]
fn estimator_first_detent_and_stall_give_smallest_step() {
    let mut e = RotarySpeedEstimator::default();
    assert_eq!(e.move_step_for_tick(ticks(1000), &Direction::Clockwise), 5);
    assert_eq!(e.last_tick(), Some(ticks(1000)));
    // 241 ms later: a stall
    assert_eq!(e.move_step_for_tick(ticks(1241), &Direction::Clockwise), 5);
}

#[test]
fn estimator_averages_the_last_two_intervals() {
    let mut e = RotarySpeedEstimator::default();
    e.move_step_for_tick(ticks(0), &Direction::Clockwise);
    // one interval of 50 ms: fast
    assert_eq!(e.move_step_for_tick(ticks(50), &Direction::Clockwise), 30);
    // intervals 50 and 200: average 125
    assert_eq!(e.move_step_for_tick(ticks(250), &Direction::Clockwise), map_avg_dt_to_move_step(125));
    // intervals 200 and 200: average 200
    assert_eq!(e.move_step_for_tick(ticks(450), &Direction::Clockwise), map_avg_dt_to_move_step(200));
    // a flip drops the history: only the new 60 ms interval counts
    assert_eq!(e.move_step_for_tick(ticks(510), &Direction::CounterClockwise), 30);
}

#[test]
fn estimator_reset_starts_over() {
    let mut e = RotarySpeedEstimator::default();
    e.move_step_for_tick(ticks(0), &Direction::Clockwise);
    e.move_step_for_tick(ticks(10), &Direction::Clockwise);
    e.reset();
    assert_eq!(e.last_tick(), None);
    assert_eq!(e.move_step_for_tick(ticks(20), &Direction::Clockwise), 5);
}

#[test]
fn modifier_and_mouse_bits() {
    let mut s = UsbInputState::default();
    assert_eq!(s.keyboard_modifier(), 0);
    s.set_pressed(Button::A, true);
    assert_eq!(s.keyboard_modifier(), 0x01);
    assert_eq!(s.mouse_buttons(), 0x02);
    s.set_pressed(Button::D, true);
    assert_eq!(s.keyboard_modifier(), 0x03);
    s.set_pressed(Button::B, true);
    s.set_pressed(Button::C, true);
    assert_eq!(s.keyboard_modifier(), 0x0f);
    assert_eq!(s.mouse_buttons(), 0x07);
    s.set_pressed(Button::Encoder, true);
    assert_eq!(s.keyboard_modifier(), 0x0f);
    s.set_pressed(Button::A, false);
    assert_eq!(s.keyboard_modifier(), 0x0e);
    assert_eq!(s.mouse_buttons(), 0x05);
    s.clear();
    assert_eq!(s, UsbInputState::default());
}

#[test]
fn reports_are_built_as_given() {
    assert_eq!(
        keyboard_release_report(5),
        KeyboardReport { modifier: 5, reserved: 0, leds: 0, keycodes: [0; 6] }
    );
    assert_eq!(
        keyboard_report(1, Some(0x04)),
        KeyboardReport { modifier: 1, reserved: 0, leds: 0, keycodes: [4, 0, 0, 0, 0, 0] }
    );
    assert_eq!(keyboard_report(2, None), keyboard_release_report(2));
    assert_eq!(mouse_report(1, -2, 3, -4, 5), MouseReport { buttons: 1, x: -2, y: 3, wheel: -4, pan: 5 });
}

#[test]
fn rotary_reports_per_mode() {
    let m = rotary_mouse_report(1, mouse_modes(PointerMode::Move, MovementAxis::Y), 12, Direction::Clockwise);
    assert_eq!(m, MouseReport { buttons: 1, x: 0, y: 12, wheel: 0, pan: 0 });
    let m = rotary_mouse_report(0, mouse_modes(PointerMode::Move, MovementAxis::X), 12, Direction::CounterClockwise);
    assert_eq!(m, MouseReport { buttons: 0, x: -12, y: 0, wheel: 0, pan: 0 });
    let m = rotary_mouse_report(0, mouse_modes(PointerMode::Scroll, MovementAxis::Y), 30, Direction::CounterClockwise);
    assert_eq!(m, MouseReport { buttons: 0, x: 0, y: 0, wheel: -1, pan: 0 });
    let m = rotary_mouse_report(4, mouse_modes(PointerMode::Scroll, MovementAxis::X), 30, Direction::Clockwise);
    assert_eq!(m, MouseReport { buttons: 4, x: 0, y: 0, wheel: 0, pan: 1 });
}

#[test]
fn keyboard_mode_key_press_and_release() {
    let mut c = HidController::new();
    let m = keyboard_modes();
    let r = c.on_input(InputEvent::ButtonPress(Button::A), m, 5, 0);
    assert_eq!(r, Some(HidReport::Keyboard(keyboard_report(1, None))));
    let r = c.on_input(InputEvent::ButtonPress(Button::Encoder), m, 5, 0);
    assert_eq!(r, Some(HidReport::Keyboard(keyboard_report(1, Some(key_info(5).keycode)))));
    assert_eq!(c.encoder_keycode, Some(0x09));
    let r = c.on_input(InputEvent::ButtonPress(Button::D), m, 5, 0);
    assert_eq!(r, Some(HidReport::Keyboard(keyboard_report(3, Some(0x09)))));
    let r = c.on_input(InputEvent::ButtonRelease(Button::Encoder), m, 5, 0);
    assert_eq!(r, Some(HidReport::Keyboard(keyboard_release_report(3))));
    assert_eq!(c.encoder_keycode, None);
    let r = c.on_input(InputEvent::ButtonRelease(Button::A), m, 5, 0);
    assert_eq!(r, Some(HidReport::Keyboard(keyboard_report(2, None))));
    let r = c.on_input(InputEvent::Rotary(Direction::Clockwise), m, 5, 0);
    assert_eq!(r, None);
}

#[test]
fn mouse_mode_buttons_and_rotation() {
    let mut c = HidController::new();
    let m = mouse_modes(PointerMode::Move, MovementAxis::Y);
    let r = c.on_input(InputEvent::ButtonPress(Button::C), m, 0, 0);
    assert_eq!(r, Some(HidReport::Mouse(mouse_report(1, 0, 0, 0, 0))));
    let r = c.on_input(InputEvent::ButtonPress(Button::D), m, 0, 0);
    assert_eq!(r, None);
    let r = c.on_input(InputEvent::ButtonPress(Button::Encoder), m, 0, 0);
    assert_eq!(r, None);
    let r = c.on_input(InputEvent::Rotary(Direction::CounterClockwise), m, 0, ticks(100));
    assert_eq!(r, Some(HidReport::Mouse(mouse_report(1, 0, -5, 0, 0))));
    let r = c.on_input(InputEvent::Rotary(Direction::CounterClockwise), m, 0, ticks(140));
    assert_eq!(r, Some(HidReport::Mouse(mouse_report(1, 0, -30, 0, 0))));
    let r = c.on_input(InputEvent::ButtonRelease(Button::C), m, 0, ticks(150));
    assert_eq!(r, Some(HidReport::Mouse(mouse_report(0, 0, 0, 0, 0))));
}

#[test]
fn main_mode_switch_releases_everything() {
    let mut c = HidController::new();
    let m = keyboard_modes();
    c.on_input(InputEvent::ButtonPress(Button::B), m, 0, 0);
    c.on_input(InputEvent::ButtonPress(Button::Encoder), m, 0, 0);
    let reports = c.on_mode_change(ModeChange::MainMode);
    assert_eq!(
        reports,
        vec![
            HidReport::Keyboard(keyboard_release_report(0)),
            HidReport::Mouse(mouse_report(0, 0, 0, 0, 0))
        ]
    );
    assert_eq!(c.state, UsbInputState::default());
    assert_eq!(c.encoder_keycode, None);
    assert_eq!(c.rotary_speed.last_tick(), None);
    assert!(c.on_mode_change(ModeChange::SubMode).is_empty());
}

#[test]
fn selection_is_read_only_for_the_key_press() {
    let mut c = HidController::new();
    let m = keyboard_modes();
    let r = c.on_input(InputEvent::ButtonPress(Button::C), m, 1000, 0);
    assert_eq!(r, Some(HidReport::Keyboard(keyboard_report(0x08, None))));
    let r = c.on_input(InputEvent::ButtonRelease(Button::Encoder), m, 1000, 0);
    assert_eq!(r, Some(HidReport::Keyboard(keyboard_release_report(0x08))));
}
