use mizet_fw::display::{
    draw_base_ui, draw_button_label, draw_button_rect, draw_key, draw_keyboard_ui, draw_logo,
    draw_mouse_ui, handle_rotation, refresh_initial_ui, refresh_ui, DrawOp, TextStyle, UiState,
};
use mizet_fw::image::ArrowDirection;
use mizet_fw::keymap::KEY_LENGTH;
use mizet_fw::shared::{
    store_main_mode, Button, Direction, InputEvent, MainMode, ModeChange, Modes, MovementAxis,
    PointerMode, SharedState,
};

fn t(text: &'static str, x: i32, y: i32, style: TextStyle) -> DrawOp {
    DrawOp::Text { text, x, y, style }
}

#[test]
fn ui_state_follows_events_and_resets() {
    let mut ui = UiState::new();
    ui.set_state(InputEvent::ButtonPress(Button::A));
    ui.set_state(InputEvent::ButtonPress(Button::Encoder));
    ui.set_state(InputEvent::Rotary(Direction::CounterClockwise));
    assert!(ui.button_a_pressed && ui.encoder_pressed && !ui.button_b_pressed);
    assert_eq!(ui.rotation_animate, Some(Direction::CounterClockwise));
    ui.set_state(InputEvent::ButtonRelease(Button::A));
    assert!(!ui.button_a_pressed);
    ui.apply_mode_change(ModeChange::SubMode);
    assert!(ui.encoder_pressed);
    ui.apply_mode_change(ModeChange::MainMode);
    assert_eq!(ui, UiState::new());
    ui.set_state(InputEvent::ButtonPress(Button::D));
    ui.reset();
    assert_eq!(ui, UiState::new());
}

#[test]
fn rects_labels_and_keys() {
    let mut ops = Vec::new();
    draw_button_rect(&mut ops, 1, 2, 3, 4, true);
    draw_button_label(&mut ops, "Ctl", 5, 6, true);
    draw_button_label(&mut ops, "Alt", 5, 6, false);
    draw_key(&mut ops, 0, 10, TextStyle::Large);
    draw_key(&mut ops, 36, 20, TextStyle::LargeInverted);
    assert_eq!(
        ops,
        vec![
            DrawOp::Rect { x: 1, y: 2, width: 3, height: 4, filled: true },
            t("Ctl", 5, 6, TextStyle::SmallInverted),
            t("Alt", 5, 6, TextStyle::Small),
            t("A", 10, 2, TextStyle::Large),
            t("a", 10, 18, TextStyle::Large),
            t("R", 20, 0, TextStyle::LargeInverted),
            t("E", 20, 10, TextStyle::LargeInverted),
            t("T", 20, 20, TextStyle::LargeInverted),
        ]
    );
}

#[test]
fn keyboard_screen_shows_two_keys_each_side() {
    let mut ui = UiState::new();
    ui.encoder_pressed = true;
    let mut ops = Vec::new();
    draw_keyboard_ui(&mut ops, &ui, 0, 0, 0);
    let mut base = Vec::new();
    draw_base_ui(&mut base, &ui);
    assert_eq!(&ops[..4], &base[..]);
    assert_eq!(ops[4], DrawOp::Arrow { x: 20, y: 13, direction: ArrowDirection::Up, inverted: false });
    assert_eq!(ops[5], t("Ctl", 1, 1, TextStyle::Small));
    assert_eq!(ops[10], DrawOp::Rect { x: 66, y: 0, width: 23, height: 32, filled: true });
    assert_eq!(ops.len(), 4 + 8 + 10);
    // F9, F10, a (selected), b, c
    assert_eq!(ops[12], t("F", 33, 2, TextStyle::Large));
    assert_eq!(ops[13], t("9", 33, 18, TextStyle::Large));
    assert_eq!(ops[15], t("0", 53, 18, TextStyle::Large));
    assert_eq!(ops[16], t("A", 74, 2, TextStyle::LargeInverted));
    assert_eq!(ops[21], t("c", 115, 18, TextStyle::Large));
}

#[test]
fn mouse_screen_layout() {
    let ui = UiState::new();
    let modes = Modes { main_mode: MainMode::Mouse, pointer_mode: PointerMode::Move, movement_axis: MovementAxis::X };
    let mut ops = Vec::new();
    draw_mouse_ui(&mut ops, &ui, modes);
    assert_eq!(ops.len(), 4 + 4 + 8 + 3 + 2);
    assert_eq!(ops[5], t("R", 6, 1, TextStyle::Small));
    assert_eq!(ops[8], DrawOp::Line { x0: 28, y0: 16, x1: 32, y1: 16 });
    assert_eq!(ops[9], DrawOp::Line { x0: 28, y0: 16, x1: 28, y1: 20 });
    assert_eq!(ops[15], DrawOp::Line { x0: 93, y0: 30, x1: 93, y1: 26 });
    assert_eq!(ops[17], t("Scroll", 39, 2, TextStyle::Large));
    assert_eq!(ops[19], DrawOp::Arrow { x: 106, y: 13, direction: ArrowDirection::Left, inverted: false });
    assert_eq!(ops[20], DrawOp::Arrow { x: 112, y: 13, direction: ArrowDirection::Right, inverted: false });

    let scroll_y = Modes { main_mode: MainMode::Mouse, pointer_mode: PointerMode::Scroll, movement_axis: MovementAxis::Y };
    let mut ops = Vec::new();
    draw_mouse_ui(&mut ops, &ui, scroll_y);
    assert_eq!(ops[4], DrawOp::Arrow { x: 20, y: 13, direction: ArrowDirection::Down, inverted: false });
    assert_eq!(ops[8], DrawOp::Line { x0: 28, y0: 1, x1: 32, y1: 1 });
    assert_eq!(ops[19], DrawOp::Arrow { x: 109, y: 10, direction: ArrowDirection::Up, inverted: false });
    assert_eq!(ops[20], DrawOp::Arrow { x: 109, y: 16, direction: ArrowDirection::Down, inverted: false });
}

#[test]
fn rotation_animation_frames() {
    let ui = UiState::new();
    let mut s = SharedState::new();
    let frames = handle_rotation(&ui, &Direction::Clockwise, &mut s);
    assert_eq!(frames.len(), 3);
    assert_eq!(s.current_index, KEY_LENGTH - 1);
    let frame = |idx: usize, off: i32| {
        let mut ops = Vec::new();
        draw_keyboard_ui(&mut ops, &ui, idx, 0, off);
        ops
    };
    assert_eq!(frames[0], frame(0, 7));
    assert_eq!(frames[1], frame(KEY_LENGTH - 1, -7));
    assert_eq!(frames[2], frame(KEY_LENGTH - 1, 0));
    let frames = handle_rotation(&ui, &Direction::CounterClockwise, &mut s);
    assert_eq!(s.current_index, 0);
    assert_eq!(frames[0], frame(KEY_LENGTH - 1, -7));
    assert_eq!(frames[1], frame(0, 7));
}

#[test]
fn refresh_shows_the_screen_of_the_mode() {
    let mut ui = UiState::new();
    let mut s = SharedState::new();
    let frames = refresh_ui(&mut ui, &mut s);
    let mut expected = Vec::new();
    draw_keyboard_ui(&mut expected, &ui, 0, 0, 0);
    assert_eq!(frames, vec![expected]);

    ui.set_state(InputEvent::Rotary(Direction::CounterClockwise));
    let frames = refresh_ui(&mut ui, &mut s);
    assert_eq!(frames.len(), 3);
    assert_eq!(s.current_index, 1);
    assert_eq!(ui.rotation_animate, None);

    store_main_mode(&mut s, MainMode::Mouse);
    ui.set_state(InputEvent::Rotary(Direction::CounterClockwise));
    let frames = refresh_ui(&mut ui, &mut s);
    assert_eq!(frames.len(), 1);
    assert_eq!(s.current_index, 1);
    assert_eq!(ui.rotation_animate, Some(Direction::CounterClockwise));
}

#[test]
fn start_up_frames_slide_the_labels_in() {
    let ui = UiState::new();
    let frames = refresh_initial_ui(&ui, 0);
    assert_eq!(frames.len(), 6);
    for (i, f) in frames.iter().enumerate() {
        assert_eq!(f[5], t("Ctl", -20 + 4 * i as i32 + 1, 1, TextStyle::Small));
    }
    let mut ops = Vec::new();
    draw_logo(&mut ops);
    assert_eq!(ops, vec![DrawOp::Logo { x: 11, y: 8 }]);
}

#[test]
fn mouse_screen_needs_no_selected_key() {
    let mut ui = UiState::new();
    let mut s = SharedState::new();
    store_main_mode(&mut s, MainMode::Mouse);
    s.current_index = 500;
    let frames = refresh_ui(&mut ui, &mut s);
    assert_eq!(frames.len(), 1);
    assert_eq!(s.current_index, 500);
}
