//! What the 128 by 32 display shows: the state of the buttons as the
//! display sees it, and the drawing operations of each screen.

use vstd::prelude::*;
use crate::image::ArrowDirection;
use crate::usb_hid::UsbInputState;
use crate::keymap::{get_next_idx, get_prev_idx, key_info, keymap, next_index, prev_index, KEY_LENGTH};
use crate::shared::{
    load_modes, Button, Direction, InputEvent, MainMode, ModeChange, Modes, MovementAxis,
    PointerMode, SharedState,
};

verus! {

/// The text styles of the display: the small 5 by 8 font or the large 7 by 12
/// font, lit on dark or dark on lit.
#[derive(Clone, Copy, PartialEq, Eq, Structural, Debug)]
pub enum TextStyle {
    Small,
    SmallInverted,
    Large,
    LargeInverted,
}

/// One drawing operation; positions are top-left corners in display pixels.
#[derive(Clone, Copy, PartialEq, Eq, Debug)]
pub enum DrawOp {
    /// A rectangle, filled or with a one-pixel border.
    Rect { x: i32, y: i32, width: u32, height: u32, filled: bool },
    /// A one-pixel line between two points.
    Line { x0: i32, y0: i32, x1: i32, y1: i32 },
    /// A text whose top is at `y`.
    Text { text: &'static str, x: i32, y: i32, style: TextStyle },
    /// The six by six image of an arrow, inverted when pressed.
    Arrow { x: i32, y: i32, direction: ArrowDirection, inverted: bool },
    /// The start-up logo, 105 by 15 pixels.
    Logo { x: i32, y: i32 },
}

/// What the display shows of the input devices.
#[derive(Clone, Copy, PartialEq, Eq, Structural, Debug)]
pub struct UiState {
    pub button_a_pressed: bool,
    pub button_b_pressed: bool,
    pub button_c_pressed: bool,
    pub button_d_pressed: bool,
    pub encoder_pressed: bool,
    /// A detent whose animation is still to be shown.
    pub rotation_animate: Option<Direction>,
}

impl UiState {
    /// Nothing pressed and no animation pending.
    pub open spec fn cleared() -> UiState {
        UiState {
            button_a_pressed: false,
            button_b_pressed: false,
            button_c_pressed: false,
            button_d_pressed: false,
            encoder_pressed: false,
            rotation_animate: None,
        }
    }

    /// The state after an input event: a press or release sets the button's
    /// flag, a detent is remembered for its animation.
    pub open spec fn after(self, event: InputEvent) -> UiState {
        match event {
            InputEvent::ButtonPress(b) => self.with_button(b, true),
            InputEvent::ButtonRelease(b) => self.with_button(b, false),
            InputEvent::Rotary(d) => UiState { rotation_animate: Some(d), ..self },
        }
    }

    pub open spec fn with_button(self, button: Button, pressed: bool) -> UiState {
        match button {
            Button::A => UiState { button_a_pressed: pressed, ..self },
            Button::B => UiState { button_b_pressed: pressed, ..self },
            Button::C => UiState { button_c_pressed: pressed, ..self },
            Button::D => UiState { button_d_pressed: pressed, ..self },
            Button::Encoder => UiState { encoder_pressed: pressed, ..self },
        }
    }

    pub fn new() -> (s: UiState)
        ensures
            s == UiState::cleared(),
    {
        UiState {
            button_a_pressed: false,
            button_b_pressed: false,
            button_c_pressed: false,
            button_d_pressed: false,
            encoder_pressed: false,
            rotation_animate: None,
        }
    }

    pub fn set_state(&mut self, event: InputEvent)
        ensures
            *final(self) == old(self).after(event),
    {
        match event {
            InputEvent::ButtonPress(button) | InputEvent::ButtonRelease(button) => {
                let pressed = matches!(event, InputEvent::ButtonPress(_));
                match button {
                    Button::A => self.button_a_pressed = pressed,
                    Button::B => self.button_b_pressed = pressed,
                    Button::C => self.button_c_pressed = pressed,
                    Button::D => self.button_d_pressed = pressed,
                    Button::Encoder => self.encoder_pressed = pressed,
                }
            },
            InputEvent::Rotary(direction) => {
                self.rotation_animate = Some(direction);
            },
        }
    }

    pub fn reset(&mut self)
        ensures
            *final(self) == UiState::cleared(),
    {
        self.button_a_pressed = false;
        self.button_b_pressed = false;
        self.button_c_pressed = false;
        self.button_d_pressed = false;
        self.encoder_pressed = false;
        self.rotation_animate = None;
    }

    /// A main mode switch clears what the display shows of the buttons; a sub
    /// mode change keeps it.
    pub fn apply_mode_change(&mut self, change: ModeChange)
        ensures
            *final(self) == match change {
                ModeChange::MainMode => UiState::cleared(),
                ModeChange::SubMode => *old(self),
            },
    {
        if let ModeChange::MainMode = change {
            self.reset();
        }
    }
}

/// Releasing a button after pressing it shows it released again, and a reset
/// clears every flag and the pending animation.
pub proof fn law_press_release(s: UiState, b: Button)
    ensures
        s.after(InputEvent::ButtonPress(b)).after(InputEvent::ButtonRelease(b)) == s.with_button(
            b,
            false,
        ),
        s.with_button(b, false).with_button(b, false) == s.with_button(b, false),
{
}

pub open spec fn rect(x: int, y: int, width: int, height: int, filled: bool) -> DrawOp {
    DrawOp::Rect { x: x as i32, y: y as i32, width: width as u32, height: height as u32, filled }
}

pub open spec fn line(x0: int, y0: int, x1: int, y1: int) -> DrawOp {
    DrawOp::Line { x0: x0 as i32, y0: y0 as i32, x1: x1 as i32, y1: y1 as i32 }
}

pub open spec fn text(text: &'static str, x: int, y: int, style: TextStyle) -> DrawOp {
    DrawOp::Text { text, x: x as i32, y: y as i32, style }
}

pub open spec fn arrow(x: int, y: int, direction: ArrowDirection, inverted: bool) -> DrawOp {
    DrawOp::Arrow { x: x as i32, y: y as i32, direction, inverted }
}

/// The small label style, inverted when the button is pressed.
pub open spec fn label_style(is_pressed: bool) -> TextStyle {
    if is_pressed {
        TextStyle::SmallInverted
    } else {
        TextStyle::Small
    }
}

pub fn draw_button_rect(ops: &mut Vec<DrawOp>, x: i32, y: i32, width: u32, height: u32, is_pressed: bool)
    ensures
        final(ops)@ == old(ops)@.push(rect(x as int, y as int, width as int, height as int, is_pressed)),
{
    ops.push(DrawOp::Rect { x, y, width, height, filled: is_pressed });
}

pub fn draw_button_label(ops: &mut Vec<DrawOp>, text: &'static str, x: i32, y: i32, is_pressed: bool)
    ensures
        final(ops)@ == old(ops)@.push(crate::display::text(text, x as int, y as int, label_style(is_pressed))),
{
    let style = if is_pressed {
        TextStyle::SmallInverted
    } else {
        TextStyle::Small
    };
    ops.push(DrawOp::Text { text, x, y, style });
}

pub fn draw_arrow(ops: &mut Vec<DrawOp>, x: i32, y: i32, is_pressed: bool, direction: ArrowDirection)
    ensures
        final(ops)@ == old(ops)@.push(arrow(x as int, y as int, direction, is_pressed)),
{
    ops.push(DrawOp::Arrow { x, y, direction, inverted: is_pressed });
}

/// The legends of a key in a column at `x`: the shifted legend on top and
/// the plain one below, or three legends when the key has a middle one.
pub open spec fn key_ops(index: usize, x: int, style: TextStyle) -> Seq<DrawOp> {
    let k = keymap(index);
    match k.middle_key {
        Some(m) => seq![text(k.shifted_key, x, 0, style), text(m, x, 10, style), text(k.key, x, 20, style)],
        None => seq![text(k.shifted_key, x, 2, style), text(k.key, x, 18, style)],
    }
}

pub fn draw_key(ops: &mut Vec<DrawOp>, index: usize, x: i32, style: TextStyle)
    requires
        index < KEY_LENGTH,
    ensures
        final(ops)@ == old(ops)@ + key_ops(index, x as int, style),
{
    let info = key_info(index);
    let has_middle = info.middle_key.is_some();
    let y_top: i32 = if has_middle {
        0
    } else {
        2
    };
    let y_bottom: i32 = if has_middle {
        20
    } else {
        18
    };
    ops.push(DrawOp::Text { text: info.shifted_key, x, y: y_top, style });
    if let Some(middle_key) = info.middle_key {
        ops.push(DrawOp::Text { text: middle_key, x, y: 10, style });
    }
    ops.push(DrawOp::Text { text: info.key, x, y: y_bottom, style });
    assert(ops@ =~= old(ops)@ + key_ops(index, x as int, style));
}

/// The frames around the four buttons, filled while pressed.
pub open spec fn base_ui_ops(ui: UiState) -> Seq<DrawOp> {
    seq![
        rect(-1, -1, 20, 12, ui.button_a_pressed),
        rect(-1, 10, 20, 12, ui.button_b_pressed),
        rect(-1, 21, 20, 12, ui.button_c_pressed),
        rect(18, -1, 9, 34, ui.button_d_pressed),
    ]
}

pub fn draw_base_ui(ops: &mut Vec<DrawOp>, ui_state: &UiState)
    ensures
        final(ops)@ == old(ops)@ + base_ui_ops(*ui_state),
{
    draw_button_rect(ops, -1, -1, 20, 12, ui_state.button_a_pressed);
    draw_button_rect(ops, -1, 10, 20, 12, ui_state.button_b_pressed);
    draw_button_rect(ops, -1, 21, 20, 12, ui_state.button_c_pressed);
    draw_button_rect(ops, 18, -1, 9, 34, ui_state.button_d_pressed);
    assert(ops@ =~= old(ops)@ + base_ui_ops(*ui_state));
}


fn draw_line(ops: &mut Vec<DrawOp>, x0: i32, y0: i32, x1: i32, y1: i32)
    ensures
        final(ops)@ == old(ops)@.push(line(x0 as int, y0 as int, x1 as int, y1 as int)),
{
    ops.push(DrawOp::Line { x0, y0, x1, y1 });
}

fn draw_text(ops: &mut Vec<DrawOp>, text: &'static str, x: i32, y: i32, style: TextStyle)
    ensures
        final(ops)@ == old(ops)@.push(crate::display::text(text, x as int, y as int, style)),
{
    ops.push(DrawOp::Text { text, x, y, style });
}

/// The large key style, inverted while the encoder button is pressed.
pub open spec fn selected_style(encoder_pressed: bool) -> TextStyle {
    if encoder_pressed {
        TextStyle::LargeInverted
    } else {
        TextStyle::Large
    }
}

/// The keyboard screen apart from the key wheel: the modifier labels, moved
/// right by `button_offset`, the divider lines and the frame of the selected key.
pub open spec fn keyboard_frame_ops(ui: UiState, button_offset: int) -> Seq<DrawOp> {
    seq![
        arrow(20, 13, ArrowDirection::Up, ui.button_d_pressed),
        text("Ctl", button_offset + 1, 1, label_style(ui.button_a_pressed)),
        text("Alt", button_offset + 1, 12, label_style(ui.button_b_pressed)),
        text("Gui", button_offset + 1, 23, label_style(ui.button_c_pressed)),
        line(26, 0, 26, 31),
        line(46, 1, 46, 30),
        rect(66, 0, 23, 32, ui.encoder_pressed),
        line(108, 1, 108, 30),
    ]
}

/// The key wheel: two keys before the selected one, the selected key, and
/// two keys after it, in columns moved right by `key_offset`.
pub open spec fn key_wheel_ops(index: usize, encoder_pressed: bool, key_offset: int) -> Seq<DrawOp> {
    let prev1 = prev_index(index as int);
    let prev2 = prev_index(prev1);
    let next1 = next_index(index as int);
    let next2 = next_index(next1);
    key_ops(prev2 as usize, key_offset + 33, TextStyle::Large) + key_ops(
        prev1 as usize,
        key_offset + 53,
        TextStyle::Large,
    ) + key_ops(index, key_offset + 74, selected_style(encoder_pressed)) + key_ops(
        next1 as usize,
        key_offset + 95,
        TextStyle::Large,
    ) + key_ops(next2 as usize, key_offset + 115, TextStyle::Large)
}

/// The keyboard screen with key `index` selected.
pub open spec fn keyboard_ui_ops(ui: UiState, index: usize, button_offset: int, key_offset: int) -> Seq<
    DrawOp,
> {
    base_ui_ops(ui) + keyboard_frame_ops(ui, button_offset) + key_wheel_ops(
        index,
        ui.encoder_pressed,
        key_offset,
    )
}

fn draw_keyboard_frame(ops: &mut Vec<DrawOp>, ui_state: &UiState, button_offset: i32)
    requires
        button_offset < i32::MAX,
    ensures
        final(ops)@ == old(ops)@ + keyboard_frame_ops(*ui_state, button_offset as int),
{
    draw_arrow(ops, 20, 13, ui_state.button_d_pressed, ArrowDirection::Up);
    draw_button_label(ops, "Ctl", button_offset + 1, 1, ui_state.button_a_pressed);
    draw_button_label(ops, "Alt", button_offset + 1, 12, ui_state.button_b_pressed);
    draw_button_label(ops, "Gui", button_offset + 1, 23, ui_state.button_c_pressed);
    draw_line(ops, 26, 0, 26, 31);
    draw_line(ops, 46, 1, 46, 30);
    draw_button_rect(ops, 66, 0, 23, 32, ui_state.encoder_pressed);
    draw_line(ops, 108, 1, 108, 30);
    assert(ops@ =~= old(ops)@ + keyboard_frame_ops(*ui_state, button_offset as int));
}

fn draw_key_wheel(ops: &mut Vec<DrawOp>, current_index: usize, encoder_pressed: bool, key_offset: i32)
    requires
        current_index < KEY_LENGTH,
        key_offset <= i32::MAX - 115,
    ensures
        final(ops)@ == old(ops)@ + key_wheel_ops(current_index, encoder_pressed, key_offset as int),
{
    let prev1_index = get_prev_idx(current_index);
    let prev2_index = get_prev_idx(prev1_index);
    let next1_index = get_next_idx(current_index);
    let next2_index = get_next_idx(next1_index);
    let selected = if encoder_pressed {
        TextStyle::LargeInverted
    } else {
        TextStyle::Large
    };
    draw_key(ops, prev2_index, key_offset + 33, TextStyle::Large);
    draw_key(ops, prev1_index, key_offset + 53, TextStyle::Large);
    draw_key(ops, current_index, key_offset + 74, selected);
    draw_key(ops, next1_index, key_offset + 95, TextStyle::Large);
    draw_key(ops, next2_index, key_offset + 115, TextStyle::Large);
    assert(ops@ =~= old(ops)@ + key_wheel_ops(current_index, encoder_pressed, key_offset as int));
}

/// Draws the keyboard screen with key `current_index` selected, the labels
/// moved right by `button_offset` and the key wheel by `key_offset`.
pub fn draw_keyboard_ui(
    ops: &mut Vec<DrawOp>,
    ui_state: &UiState,
    current_index: usize,
    button_offset: i32,
    key_offset: i32,
)
    requires
        current_index < KEY_LENGTH,
        button_offset < i32::MAX,
        key_offset <= i32::MAX - 115,
    ensures
        final(ops)@ == old(ops)@ + keyboard_ui_ops(
            *ui_state,
            current_index,
            button_offset as int,
            key_offset as int,
        ),
{
    draw_base_ui(ops, ui_state);
    draw_keyboard_frame(ops, ui_state, button_offset);
    draw_key_wheel(ops, current_index, ui_state.encoder_pressed, key_offset);
    assert(ops@ =~= old(ops)@ + keyboard_ui_ops(
        *ui_state,
        current_index,
        button_offset as int,
        key_offset as int,
    ));
}

/// The corners of the mouse screen's selection box: position and the signs of
/// the directions their two strokes go.
pub open spec fn corner(i: int) -> (int, int, int, int) {
    if i == 0 {
        (28, 1, 1, 1)
    } else if i == 1 {
        (93, 1, -1, 1)
    } else if i == 2 {
        (28, 15, 1, -1)
    } else {
        (93, 15, -1, -1)
    }
}

/// The two four-pixel strokes of a corner, moved down by `y_offset`.
pub open spec fn corner_lines(c: (int, int, int, int), y_offset: int) -> Seq<DrawOp> {
    let (x, y, sx, sy) = c;
    seq![
        line(x, y + y_offset, x + sx * 4, y + y_offset),
        line(x, y + y_offset, x, y + y_offset + sy * 4),
    ]
}

/// The strokes of the first `n` corners.
pub open spec fn corners_ops(y_offset: int, n: int) -> Seq<DrawOp>
    decreases n,
{
    if n <= 0 {
        Seq::empty()
    } else {
        corners_ops(y_offset, n - 1) + corner_lines(corner(n - 1), y_offset)
    }
}

/// The two arrows in the encoder frame: up and down for the Y axis, left
/// and right for the X axis.
pub open spec fn axis_arrow_ops(axis: MovementAxis, encoder_pressed: bool) -> Seq<DrawOp> {
    if axis == MovementAxis::Y {
        seq![
            arrow(109, 10, ArrowDirection::Up, encoder_pressed),
            arrow(109, 16, ArrowDirection::Down, encoder_pressed),
        ]
    } else {
        seq![
            arrow(106, 13, ArrowDirection::Left, encoder_pressed),
            arrow(112, 13, ArrowDirection::Right, encoder_pressed),
        ]
    }
}

/// The mouse button labels and the arrow of D, which points up while the
/// pointer moves and down while it scrolls.
pub open spec fn mouse_labels_ops(ui: UiState, is_move: bool) -> Seq<DrawOp> {
    seq![
        arrow(
            20,
            13,
            if is_move {
                ArrowDirection::Up
            } else {
                ArrowDirection::Down
            },
            ui.button_d_pressed,
        ),
        text("R", 6, 1, label_style(ui.button_a_pressed)),
        text("M", 6, 12, label_style(ui.button_b_pressed)),
        text("L", 6, 23, label_style(ui.button_c_pressed)),
    ]
}

/// The frame of the encoder and the two pointer mode names.
pub open spec fn mouse_encoder_ops(ui: UiState) -> Seq<DrawOp> {
    seq![
        rect(95, -1, 34, 34, ui.encoder_pressed),
        text("Scroll", 39, 2, TextStyle::Large),
        text("Move", 46, 17, TextStyle::Large),
    ]
}

/// The mouse screen: the mouse button labels, the box around "Move" or
/// "Scroll" after the pointer mode, and the arrows of the axis.
pub open spec fn mouse_ui_ops(ui: UiState, modes: Modes) -> Seq<DrawOp> {
    let is_move = modes.pointer_mode == PointerMode::Move;
    let y_offset: int = if is_move {
        15
    } else {
        0
    };
    base_ui_ops(ui) + mouse_labels_ops(ui, is_move) + corners_ops(y_offset, 4) + mouse_encoder_ops(
        ui,
    ) + axis_arrow_ops(modes.movement_axis, ui.encoder_pressed)
}

fn draw_mouse_labels(ops: &mut Vec<DrawOp>, ui_state: &UiState, is_move: bool)
    ensures
        final(ops)@ == old(ops)@ + mouse_labels_ops(*ui_state, is_move),
{
    draw_arrow(
        ops,
        20,
        13,
        ui_state.button_d_pressed,
        if is_move {
            ArrowDirection::Up
        } else {
            ArrowDirection::Down
        },
    );
    draw_button_label(ops, "R", 6, 1, ui_state.button_a_pressed);
    draw_button_label(ops, "M", 6, 12, ui_state.button_b_pressed);
    draw_button_label(ops, "L", 6, 23, ui_state.button_c_pressed);
    assert(ops@ =~= old(ops)@ + mouse_labels_ops(*ui_state, is_move));
}

fn draw_mouse_encoder(ops: &mut Vec<DrawOp>, ui_state: &UiState)
    ensures
        final(ops)@ == old(ops)@ + mouse_encoder_ops(*ui_state),
{
    draw_button_rect(ops, 95, -1, 34, 34, ui_state.encoder_pressed);
    draw_text(ops, "Scroll", 39, 2, TextStyle::Large);
    draw_text(ops, "Move", 46, 17, TextStyle::Large);
    assert(ops@ =~= old(ops)@ + mouse_encoder_ops(*ui_state));
}

const CORNER_L: i32 = 28;
const CORNER_R: i32 = 93;
const CORNER_T: i32 = 1;
const CORNER_B: i32 = 15;
const CORNER_LEN: i32 = 4;

fn draw_corners(ops: &mut Vec<DrawOp>, y_offset: i32)
    requires
        y_offset == 0 || y_offset == 15,
    ensures
        final(ops)@ == old(ops)@ + corners_ops(y_offset as int, 4),
{
    let corners: [(i32, i32, i32, i32); 4] = [
        (CORNER_L, CORNER_T, 1, 1),
        (CORNER_R, CORNER_T, -1, 1),
        (CORNER_L, CORNER_B, 1, -1),
        (CORNER_R, CORNER_B, -1, -1),
    ];
    let mut i: usize = 0;
    while i < 4
        invariant
            i <= 4,
            y_offset == 0 || y_offset == 15,
            corners@.len() == 4,
            forall|j: int|
                0 <= j < 4 ==> {
                    let (x, y, sx, sy) = #[trigger] corners@[j];
                    (x as int, y as int, sx as int, sy as int) == corner(j)
                },
            ops@ == old(ops)@ + corners_ops(y_offset as int, i as int),
        decreases 4 - i,
    {
        let (x, y, sx, sy) = corners[i];
        assert((x as int, y as int, sx as int, sy as int) == corner(i as int));
        draw_line(ops, x, y + y_offset, x + sx * CORNER_LEN, y + y_offset);
        draw_line(ops, x, y + y_offset, x, y + y_offset + sy * CORNER_LEN);
        assert(ops@ =~= old(ops)@ + corners_ops(y_offset as int, i + 1));
        i = i + 1;
    }
}

const ARROW_X: i32 = 112;
const ARROW_Y: i32 = 13;

fn draw_axis_arrows(ops: &mut Vec<DrawOp>, axis: MovementAxis, encoder_pressed: bool)
    ensures
        final(ops)@ == old(ops)@ + axis_arrow_ops(axis, encoder_pressed),
{
    let (points, dirs): ([(i32, i32); 2], [ArrowDirection; 2]) = if axis == MovementAxis::Y {
        (
            [(ARROW_X - 3, ARROW_Y - 3), (ARROW_X - 3, ARROW_Y + 3)],
            [ArrowDirection::Up, ArrowDirection::Down],
        )
    } else {
        ([(ARROW_X - 6, ARROW_Y), (ARROW_X, ARROW_Y)], [ArrowDirection::Left, ArrowDirection::Right])
    };
    let mut i: usize = 0;
    while i < 2
        invariant
            i <= 2,
            points@.len() == 2,
            dirs@.len() == 2,
            forall|j: int|
                0 <= j < 2 ==> arrow(
                    (#[trigger] points@[j]).0 as int,
                    points@[j].1 as int,
                    dirs@[j],
                    encoder_pressed,
                ) == axis_arrow_ops(axis, encoder_pressed)[j],
            ops@ == old(ops)@ + axis_arrow_ops(axis, encoder_pressed).take(i as int),
        decreases 2 - i,
    {
        let (x, y) = points[i];
        let ghost j = i as int;
        assert(arrow(points@[j].0 as int, points@[j].1 as int, dirs@[j], encoder_pressed)
            == axis_arrow_ops(axis, encoder_pressed)[j]);
        draw_arrow(ops, x, y, encoder_pressed, dirs[i]);
        assert(axis_arrow_ops(axis, encoder_pressed).take(i + 1) =~= axis_arrow_ops(
            axis,
            encoder_pressed,
        ).take(i as int).push(axis_arrow_ops(axis, encoder_pressed)[j]));
        i = i + 1;
    }
    assert(axis_arrow_ops(axis, encoder_pressed).take(2) =~= axis_arrow_ops(axis, encoder_pressed));
}

/// Draws the mouse screen for the given modes.
pub fn draw_mouse_ui(ops: &mut Vec<DrawOp>, ui_state: &UiState, modes: Modes)
    ensures
        final(ops)@ == old(ops)@ + mouse_ui_ops(*ui_state, modes),
{
    draw_base_ui(ops, ui_state);
    let is_move = modes.pointer_mode == PointerMode::Move;
    draw_mouse_labels(ops, ui_state, is_move);
    let y_offset: i32 = if is_move {
        15
    } else {
        0
    };
    draw_corners(ops, y_offset);
    draw_mouse_encoder(ops, ui_state);
    draw_axis_arrows(ops, modes.movement_axis, ui_state.encoder_pressed);
    assert(ops@ =~= old(ops)@ + mouse_ui_ops(*ui_state, modes));
}


/// Where the logo is drawn on the start-up screen.
pub open spec fn logo_op() -> DrawOp {
    DrawOp::Logo { x: 11, y: 8 }
}

/// Draws the start-up logo.
pub fn draw_logo(ops: &mut Vec<DrawOp>)
    ensures
        final(ops)@ == old(ops)@.push(logo_op()),
{
    ops.push(DrawOp::Logo { x: 11, y: 8 });
}

/// The horizontal step of the key wheel animation, in pixels.
pub const OFFSET_STEP: i32 = 7;

/// The key a detent selects: the one before for a clockwise detent, the one
/// after for a counter-clockwise one (the wheel turns with the knob).
pub open spec fn rotated_index(index: usize, direction: Direction) -> usize {
    match direction {
        Direction::Clockwise => prev_index(index as int) as usize,
        Direction::CounterClockwise => next_index(index as int) as usize,
    }
}

/// The first offset of the animation: the wheel starts sliding in the
/// direction of the turn.
pub open spec fn rotation_start_offset(direction: Direction) -> int {
    match direction {
        Direction::Clockwise => OFFSET_STEP as int,
        Direction::CounterClockwise => -OFFSET_STEP,
    }
}

/// The frames of the animation of one detent: the old selection slid one
/// step, the new selection slid one step the other way, then the new
/// selection in place.
pub open spec fn rotation_frames(ui: UiState, index: usize, direction: Direction) -> Seq<Seq<DrawOp>> {
    let step = rotation_start_offset(direction);
    let next = rotated_index(index, direction);
    seq![
        keyboard_ui_ops(ui, index, 0, step),
        keyboard_ui_ops(ui, next, 0, -step),
        keyboard_ui_ops(ui, next, 0, 0),
    ]
}

/// Animates one detent on the keyboard screen: returns the frames to show,
/// each drawn on a cleared display and then flushed, and moves the selected
/// key in the middle of the animation.
pub fn handle_rotation(ui_state: &UiState, direction: &Direction, shared: &mut SharedState) -> (frames:
    Vec<Vec<DrawOp>>)
    requires
        old(shared).current_index < KEY_LENGTH,
    ensures
        final(shared).current_index == rotated_index(old(shared).current_index, *direction),
        final(shared).main_mode == old(shared).main_mode,
        final(shared).pointer_mode == old(shared).pointer_mode,
        final(shared).movement_axis == old(shared).movement_axis,
        frames@.len() == 3,
        forall|i: int|
            0 <= i < 3 ==> (#[trigger] frames@[i])@ == rotation_frames(
                *ui_state,
                old(shared).current_index,
                *direction,
            )[i],
{
    let ghost start_index = shared.current_index;
    let ghost expected = rotation_frames(*ui_state, start_index, *direction);
    let mut frames: Vec<Vec<DrawOp>> = Vec::new();
    let mut offset: i32 = 0;
    let mut i: usize = 0;
    while i < 3
        invariant
            i <= 3,
            shared.current_index < KEY_LENGTH,
            shared.current_index == if i >= 2 {
                rotated_index(start_index, *direction)
            } else {
                start_index
            },
            offset == if i == 1 {
                rotation_start_offset(*direction)
            } else if i == 2 {
                -rotation_start_offset(*direction)
            } else {
                0
            },
            shared.main_mode == old(shared).main_mode,
            shared.pointer_mode == old(shared).pointer_mode,
            shared.movement_axis == old(shared).movement_axis,
            start_index == old(shared).current_index,
            start_index < KEY_LENGTH,
            expected == rotation_frames(*ui_state, start_index, *direction),
            frames@.len() == i,
            forall|j: int| 0 <= j < i ==> (#[trigger] frames@[j])@ == expected[j],
        decreases 3 - i,
    {
        if i == 1 {
            let current_index = shared.current_index;
            let new_index = match direction {
                Direction::Clockwise => get_prev_idx(current_index),
                Direction::CounterClockwise => get_next_idx(current_index),
            };
            shared.current_index = new_index;
            offset = match direction {
                Direction::Clockwise => -OFFSET_STEP,
                Direction::CounterClockwise => OFFSET_STEP,
            };
        } else {
            offset = offset + match direction {
                Direction::Clockwise => OFFSET_STEP,
                Direction::CounterClockwise => -OFFSET_STEP,
            };
        }
        let mut ops: Vec<DrawOp> = Vec::new();
        draw_keyboard_ui(&mut ops, ui_state, shared.current_index, 0, offset);
        assert(ops@ =~= expected[i as int]);
        frames.push(ops);
        i = i + 1;
    }
    frames
}

/// The frames a refresh shows, and the key selected afterwards: in keyboard
/// mode the animation of a pending detent, or else the keyboard screen; in
/// mouse mode the mouse screen.
pub open spec fn refresh_frames(ui: UiState, modes: Modes, index: usize) -> Seq<Seq<DrawOp>> {
    match modes.main_mode {
        MainMode::Keyboard => match ui.rotation_animate {
            Some(d) => rotation_frames(ui, index, d),
            None => seq![keyboard_ui_ops(ui, index, 0, 0)],
        },
        MainMode::Mouse => seq![mouse_ui_ops(ui, modes)],
    }
}

/// The key selected after a refresh.
pub open spec fn refresh_index(ui: UiState, modes: Modes, index: usize) -> usize {
    match (modes.main_mode, ui.rotation_animate) {
        (MainMode::Keyboard, Some(d)) => rotated_index(index, d),
        _ => index,
    }
}

/// Redraws the display after an event: returns the frames to show, each
/// drawn on a cleared display and then flushed. A pending detent animation is
/// shown (in keyboard mode) and then no longer pending.
pub fn refresh_ui(ui_state: &mut UiState, shared: &mut SharedState) -> (frames: Vec<Vec<DrawOp>>)
    requires
        old(shared).modes().main_mode == MainMode::Keyboard ==> old(shared).current_index
            < KEY_LENGTH,
    ensures
        frames@.len() == refresh_frames(*old(ui_state), old(shared).modes(), old(shared).current_index).len(),
        forall|i: int|
            0 <= i < frames@.len() ==> (#[trigger] frames@[i])@ == refresh_frames(
                *old(ui_state),
                old(shared).modes(),
                old(shared).current_index,
            )[i],
        final(shared).current_index == refresh_index(
            *old(ui_state),
            old(shared).modes(),
            old(shared).current_index,
        ),
        final(shared).main_mode == old(shared).main_mode,
        final(shared).pointer_mode == old(shared).pointer_mode,
        final(shared).movement_axis == old(shared).movement_axis,
        *final(ui_state) == match old(shared).modes().main_mode {
            MainMode::Keyboard => UiState { rotation_animate: None, ..*old(ui_state) },
            MainMode::Mouse => *old(ui_state),
        },
{
    let modes = load_modes(shared);
    match modes.main_mode {
        MainMode::Keyboard => match ui_state.rotation_animate {
            Some(direction) => {
                let frames = handle_rotation(ui_state, &direction, shared);
                ui_state.rotation_animate = None;
                frames
            },
            None => {
                let mut ops: Vec<DrawOp> = Vec::new();
                draw_keyboard_ui(&mut ops, ui_state, shared.current_index, 0, 0);
                let mut frames: Vec<Vec<DrawOp>> = Vec::new();
                frames.push(ops);
                frames
            },
        },
        MainMode::Mouse => {
            let mut ops: Vec<DrawOp> = Vec::new();
            draw_mouse_ui(&mut ops, ui_state, modes);
            let mut frames: Vec<Vec<DrawOp>> = Vec::new();
            frames.push(ops);
            frames
        },
    }
}

/// The number of frames of the start-up animation.
pub const INITIAL_FRAMES: usize = 6;

/// The frames of the start-up animation: the keyboard screen with the
/// modifier labels sliding in from the left, four pixels a frame.
pub open spec fn initial_frames(ui: UiState, index: usize) -> Seq<Seq<DrawOp>> {
    Seq::new(6, |i: int| keyboard_ui_ops(ui, index, -20 + i * 4, 0))
}

/// The start-up animation; each frame is drawn on a cleared display, flushed,
/// and shown for a tick.
pub fn refresh_initial_ui(ui_state: &UiState, current_index: usize) -> (frames: Vec<Vec<DrawOp>>)
    requires
        current_index < KEY_LENGTH,
    ensures
        frames@.len() == 6,
        forall|i: int|
            0 <= i < 6 ==> (#[trigger] frames@[i])@ == initial_frames(*ui_state, current_index)[i],
{
    let mut frames: Vec<Vec<DrawOp>> = Vec::new();
    let mut i: i32 = 0;
    while i < 6
        invariant
            0 <= i <= 6,
            current_index < KEY_LENGTH,
            frames@.len() == i,
            forall|j: int|
                0 <= j < i ==> (#[trigger] frames@[j])@ == initial_frames(*ui_state, current_index)[j],
        decreases 6 - i,
    {
        let button_offset = -20 + i * 4;
        let mut ops: Vec<DrawOp> = Vec::new();
        draw_keyboard_ui(&mut ops, ui_state, current_index, button_offset, 0);
        frames.push(ops);
        i = i + 1;
    }
    frames
}


/// The HID side's view of the four buttons that `ui` shows.
pub open spec fn held_buttons(ui: UiState) -> UsbInputState {
    UsbInputState {
        button_a: ui.button_a_pressed,
        button_b: ui.button_b_pressed,
        button_c: ui.button_c_pressed,
        button_d: ui.button_d_pressed,
    }
}

/// Whether `op` is the text `t` drawn inverted exactly when `lit` holds.
pub open spec fn label_lit(op: DrawOp, t: &'static str, lit: bool) -> bool {
    op matches DrawOp::Text { text, style, .. } && text == t && (style == TextStyle::SmallInverted)
        == lit && (style == TextStyle::Small) == !lit
}

/// On the keyboard screen each modifier label lights up exactly while the
/// modifier it names is in the keyboard report: "Ctl" with the left Ctrl bit,
/// "Alt" with the left Alt bit, "Gui" with the left GUI bit.
pub proof fn law_keyboard_labels_follow_modifiers(
    ui: UiState,
    index: usize,
    button_offset: int,
    key_offset: int,
)
    ensures
        ({
            let ops = keyboard_ui_ops(ui, index, button_offset, key_offset);
            let m = held_buttons(ui).modifier_spec() as u8;
            &&& label_lit(ops[5], "Ctl", m & 0x01 != 0)
            &&& label_lit(ops[6], "Alt", m & 0x04 != 0)
            &&& label_lit(ops[7], "Gui", m & 0x08 != 0)
        }),
{
    crate::usb_hid::law_button_bits(held_buttons(ui));
    let ops = keyboard_ui_ops(ui, index, button_offset, key_offset);
    assert(ops[5] == keyboard_frame_ops(ui, button_offset)[1]);
    assert(ops[6] == keyboard_frame_ops(ui, button_offset)[2]);
    assert(ops[7] == keyboard_frame_ops(ui, button_offset)[3]);
}

/// On the mouse screen each button label lights up exactly while that mouse
/// button is in the mouse report: "L" with the left button bit, "R" with the
/// right, "M" with the middle.
pub proof fn law_mouse_labels_follow_buttons(ui: UiState, modes: Modes)
    ensures
        ({
            let ops = mouse_ui_ops(ui, modes);
            let b = held_buttons(ui).mouse_buttons_spec() as u8;
            &&& label_lit(ops[5], "R", b & 0x02 != 0)
            &&& label_lit(ops[6], "M", b & 0x04 != 0)
            &&& label_lit(ops[7], "L", b & 0x01 != 0)
        }),
{
    crate::usb_hid::law_button_bits(held_buttons(ui));
    let is_move = modes.pointer_mode == PointerMode::Move;
    let ops = mouse_ui_ops(ui, modes);
    assert(ops[5] == mouse_labels_ops(ui, is_move)[1]);
    assert(ops[6] == mouse_labels_ops(ui, is_move)[2]);
    assert(ops[7] == mouse_labels_ops(ui, is_move)[3]);
}

} // verus!
