//! What the pad sends over USB HID: modifier and button bits, keyboard and
//! mouse reports, and the speed-dependent pointer step of the encoder.

use vstd::prelude::*;
use crate::clock::{elapsed_millis, millis_of_ticks};
use crate::keymap::{key_info, keymap, KEY_LENGTH};
use crate::shared::{Button, Direction, InputEvent, MainMode, ModeChange, Modes, MovementAxis, PointerMode};

verus! {

/// Number of recent inter-detent intervals averaged for the speed estimate.
pub const ROTARY_DT_HISTORY_LEN: usize = 2;
/// An average interval (ms) at or below this gives the largest move step.
pub const ROTARY_DT_FAST_MS: u32 = 70;
/// An average interval (ms) at or above this gives the smallest move step.
pub const ROTARY_DT_SLOW_MS: u32 = 240;
/// A gap (ms) since the last detent above this clears the history (a stall).
pub const ROTARY_STALL_MS: u64 = 240;
pub const MIN_MOVE_STEP: i8 = 5;
pub const MAX_MOVE_STEP: i8 = 30;
pub const SCROLL_STEP: i8 = 1;

/// The move step for an average interval: the largest step up to the fast
/// bound, the smallest from the slow bound on, and in between a linear
/// decrease rounded towards the larger step.
pub open spec fn move_step_spec(avg_dt: u32) -> int {
    if avg_dt <= ROTARY_DT_FAST_MS {
        MAX_MOVE_STEP as int
    } else if avg_dt >= ROTARY_DT_SLOW_MS {
        MIN_MOVE_STEP as int
    } else {
        MAX_MOVE_STEP - (avg_dt - ROTARY_DT_FAST_MS) * (MAX_MOVE_STEP - MIN_MOVE_STEP) / (
        ROTARY_DT_SLOW_MS - ROTARY_DT_FAST_MS)
    }
}

proof fn lemma_step_fraction(num: int)
    requires
        0 < num < 170,
    ensures
        0 <= num * 25 / 170 <= 24,
{
    assert(0 <= num * 25 < 170 * 25) by (nonlinear_arith)
        requires
            0 < num < 170,
    ;
}

pub fn map_avg_dt_to_move_step(avg_dt: u32) -> (step: i8)
    ensures
        step == move_step_spec(avg_dt),
        MIN_MOVE_STEP <= step <= MAX_MOVE_STEP,
{
    if avg_dt <= ROTARY_DT_FAST_MS {
        return MAX_MOVE_STEP;
    }
    if avg_dt >= ROTARY_DT_SLOW_MS {
        return MIN_MOVE_STEP;
    }
    let span: u64 = (ROTARY_DT_SLOW_MS - ROTARY_DT_FAST_MS) as u64;
    let num: u64 = (avg_dt - ROTARY_DT_FAST_MS) as u64;
    let delta: u64 = (MAX_MOVE_STEP - MIN_MOVE_STEP) as u64;
    proof {
        lemma_step_fraction(num as int);
    }
    let sub: i8 = (num * delta / span) as i8;
    MAX_MOVE_STEP - sub
}

/// The step never grows when the rotation slows down.
pub proof fn law_move_step_monotonic(a: u32, b: u32)
    requires
        a <= b,
    ensures
        move_step_spec(b) <= move_step_spec(a),
        MIN_MOVE_STEP <= move_step_spec(a) <= MAX_MOVE_STEP,
{
    if a > ROTARY_DT_FAST_MS && b < ROTARY_DT_SLOW_MS {
        let na: int = a - 70;
        let nb: int = b - 70;
        assert(na * 25 <= nb * 25) by (nonlinear_arith)
            requires
                na <= nb,
        ;
        assert(na * 25 / 170 <= nb * 25 / 170) by (nonlinear_arith)
            requires
                na * 25 <= nb * 25,
        ;
    }
    if a > ROTARY_DT_FAST_MS && a < ROTARY_DT_SLOW_MS {
        lemma_step_fraction(a - 70);
    }
    if b > ROTARY_DT_FAST_MS && b < ROTARY_DT_SLOW_MS {
        lemma_step_fraction(b - 70);
    }
}

/// The sum of the intervals in a history.
pub open spec fn dt_sum(s: Seq<u32>) -> nat
    decreases s.len(),
{
    if s.len() == 0 {
        0
    } else {
        dt_sum(s.drop_last()) + s.last() as nat
    }
}

/// A history after a new interval came in: it keeps the latest
/// `ROTARY_DT_HISTORY_LEN` intervals, oldest first.
pub open spec fn history_after(h: Seq<u32>, dt: u32) -> Seq<u32> {
    if h.len() < ROTARY_DT_HISTORY_LEN {
        h.push(dt)
    } else {
        h.drop_first().push(dt)
    }
}

/// Whether two consecutive detents turned in opposite directions.
pub open spec fn flipped(last: Option<Direction>, now: Direction) -> bool {
    match last {
        Some(d) => d != now,
        None => false,
    }
}

/// Estimates the rotation speed of the encoder from the time between detents.
pub struct RotarySpeedEstimator {
    last_at: Option<u64>,
    last_dir: Option<Direction>,
    dts: [u32; 2],
    len: u8,
}

impl RotarySpeedEstimator {
    /// The clock reading of the last detent.
    pub closed spec fn last_at(&self) -> Option<u64> {
        self.last_at
    }

    /// The direction of the last detent.
    pub closed spec fn last_dir(&self) -> Option<Direction> {
        self.last_dir
    }

    /// The recent intervals in milliseconds, oldest first.
    pub closed spec fn history(&self) -> Seq<u32> {
        self.dts@.subrange(0, self.len as int)
    }

    pub closed spec fn wf(&self) -> bool {
        self.len <= ROTARY_DT_HISTORY_LEN
    }

    /// Whether `now` is a clock reading that may follow the last detent.
    pub open spec fn accepts(&self, now: u64) -> bool {
        self.last_at() matches Some(l) ==> l <= now
    }

    /// The history after a detent in `direction` at clock reading `now`: kept
    /// as it is for the first detent; emptied after a stall; otherwise the
    /// interval since the last detent is added, after the history was emptied
    /// if the direction flipped.
    pub open spec fn tick_history(&self, now: u64, direction: Direction) -> Seq<u32> {
        match self.last_at() {
            None => self.history(),
            Some(last) => {
                let dt = millis_of_ticks((now - last) as u64);
                if dt > ROTARY_STALL_MS {
                    Seq::<u32>::empty()
                } else if flipped(self.last_dir(), direction) {
                    history_after(Seq::<u32>::empty(), dt as u32)
                } else {
                    history_after(self.history(), dt as u32)
                }
            },
        }
    }

    /// The move step of a detent in `direction` at clock reading `now`: the
    /// smallest step for the first detent and after a stall, otherwise the step
    /// for the average interval of the new history.
    pub open spec fn tick_step(&self, now: u64, direction: Direction) -> int {
        match self.last_at() {
            None => MIN_MOVE_STEP as int,
            Some(last) => {
                if millis_of_ticks((now - last) as u64) > ROTARY_STALL_MS {
                    MIN_MOVE_STEP as int
                } else {
                    let h = self.tick_history(now, direction);
                    move_step_spec((dt_sum(h) / h.len()) as u32)
                }
            },
        }
    }

    /// The clock reading of the last detent, if there was one since the last reset.
    pub fn last_tick(&self) -> (t: Option<u64>)
        ensures
            t == self.last_at(),
    {
        self.last_at
    }

    pub fn reset(&mut self)
        ensures
            final(self).wf(),
            final(self).last_at() == None::<u64>,
            final(self).last_dir() == None::<Direction>,
            final(self).history() == Seq::<u32>::empty(),
    {
        self.last_at = None;
        self.last_dir = None;
        self.len = 0;
    }

    /// Returns the pixel move step (5..=30) for this detent from recent rotation
    /// timing; `now` is the clock reading, in ticks, at the detent.
    pub fn move_step_for_tick(&mut self, now: u64, direction: &Direction) -> (step: i8)
        requires
            old(self).wf(),
            old(self).accepts(now),
        ensures
            final(self).wf(),
            MIN_MOVE_STEP <= step <= MAX_MOVE_STEP,
            final(self).last_at() == Some(now),
            final(self).last_dir() == Some(*direction),
            step == old(self).tick_step(now, *direction),
            final(self).history() == old(self).tick_history(now, *direction),
    {
        let last = match self.last_at {
            None => {
                self.last_at = Some(now);
                self.last_dir = Some(*direction);
                return MIN_MOVE_STEP;
            },
            Some(last) => last,
        };

        let dt_ms = elapsed_millis(now, last);

        if dt_ms > ROTARY_STALL_MS {
            self.len = 0;
            self.last_at = Some(now);
            self.last_dir = Some(*direction);
            assert(self.history() =~= Seq::<u32>::empty());
            return MIN_MOVE_STEP;
        }

        let direction_flipped = match (self.last_dir, *direction) {
            (Some(Direction::Clockwise), Direction::CounterClockwise) => true,
            (Some(Direction::CounterClockwise), Direction::Clockwise) => true,
            _ => false,
        };
        if direction_flipped {
            self.len = 0;
        }
        let ghost kept = self.history();
        assert(kept =~= if flipped(old(self).last_dir(), *direction) {
            Seq::<u32>::empty()
        } else {
            old(self).history()
        });

        let dt_u32 = dt_ms as u32;
        let n = self.len as usize;
        if n < ROTARY_DT_HISTORY_LEN {
            self.dts[n] = dt_u32;
            self.len = self.len + 1;
        } else {
            let mut i: usize = 1;
            while i < ROTARY_DT_HISTORY_LEN
                invariant
                    1 <= i <= ROTARY_DT_HISTORY_LEN,
                    self.len == 2,
                    forall|j: int| 0 <= j < i - 1 ==> self.dts@[j] == kept[j + 1],
                    forall|j: int| i - 1 <= j < 2 ==> self.dts@[j] == kept[j],
                    kept.len() == 2,
                decreases ROTARY_DT_HISTORY_LEN - i,
            {
                self.dts[i - 1] = self.dts[i];
                i = i + 1;
            }
            self.dts[ROTARY_DT_HISTORY_LEN - 1] = dt_u32;
        }
        assert(self.history() =~= history_after(kept, dt_u32));

        let count: u64 = self.len as u64;
        let mut sum: u64 = 0;
        let mut k: usize = 0;
        while k < self.len as usize
            invariant
                k <= self.len <= 2,
                sum == dt_sum(self.dts@.subrange(0, k as int)),
                sum <= k * 0xffff_ffffu64,
            decreases self.len - k,
        {
            assert(self.dts@.subrange(0, k + 1).drop_last() =~= self.dts@.subrange(0, k as int));
            sum = sum + self.dts[k] as u64;
            k = k + 1;
        }
        let avg_dt = (sum / count) as u32;

        let step = map_avg_dt_to_move_step(avg_dt);

        self.last_at = Some(now);
        self.last_dir = Some(*direction);
        step
    }
}


impl Default for RotarySpeedEstimator {
    fn default() -> (e: RotarySpeedEstimator)
        ensures
            e.wf(),
            e.last_at() == None::<u64>,
            e.last_dir() == None::<Direction>,
            e.history() == Seq::<u32>::empty(),
    {
        RotarySpeedEstimator { last_at: None, last_dir: None, dts: [0, 0], len: 0 }
    }
}

/// `v` if `b` holds, else 0.
pub open spec fn bit_if(b: bool, v: int) -> int {
    if b {
        v
    } else {
        0
    }
}

/// Which of the four buttons are held, as the HID side sees them.
#[derive(Clone, Copy, PartialEq, Eq, Structural, Debug)]
pub struct UsbInputState {
    pub button_a: bool,
    pub button_b: bool,
    pub button_c: bool,
    pub button_d: bool,
}

impl UsbInputState {
    /// This state with `button` set to `pressed`; the encoder button is not tracked.
    pub open spec fn with(self, button: Button, pressed: bool) -> UsbInputState {
        match button {
            Button::A => UsbInputState { button_a: pressed, ..self },
            Button::B => UsbInputState { button_b: pressed, ..self },
            Button::C => UsbInputState { button_c: pressed, ..self },
            Button::D => UsbInputState { button_d: pressed, ..self },
            Button::Encoder => self,
        }
    }

    /// The keyboard modifier byte: A is left Ctrl (bit 0), D left Shift (bit 1),
    /// B left Alt (bit 2), C left GUI (bit 3).
    pub open spec fn modifier_spec(self) -> int {
        bit_if(self.button_a, 0x01) + bit_if(self.button_d, 0x02) + bit_if(self.button_b, 0x04)
            + bit_if(self.button_c, 0x08)
    }

    /// The mouse button byte: C is the left button (bit 0), A the right (bit 1),
    /// B the middle (bit 2).
    pub open spec fn mouse_buttons_spec(self) -> int {
        bit_if(self.button_c, 0x01) + bit_if(self.button_a, 0x02) + bit_if(self.button_b, 0x04)
    }

    /// No button held.
    pub open spec fn default_spec() -> UsbInputState {
        UsbInputState { button_a: false, button_b: false, button_c: false, button_d: false }
    }

    pub fn clear(&mut self)
        ensures
            *final(self) == UsbInputState::default_spec(),
    {
        self.button_a = false;
        self.button_b = false;
        self.button_c = false;
        self.button_d = false;
    }

    pub fn set_pressed(&mut self, button: Button, pressed: bool)
        ensures
            *final(self) == old(self).with(button, pressed),
    {
        match button {
            Button::A => self.button_a = pressed,
            Button::B => self.button_b = pressed,
            Button::C => self.button_c = pressed,
            Button::D => self.button_d = pressed,
            Button::Encoder => {},
        }
    }

    pub fn keyboard_modifier(&self) -> (modifier: u8)
        ensures
            modifier == self.modifier_spec(),
    {
        let mut modifier = 0u8;
        assert(0u8 | 0x01u8 == 1u8) by (bit_vector);
        if self.button_a {
            modifier |= 0x01;
        }
        assert(modifier == bit_if(self.button_a, 1));
        if self.button_d {
            assert(modifier < 2 ==> modifier | 0x02 == modifier + 2) by (bit_vector);
            modifier |= 0x02;
        }
        if self.button_b {
            assert(modifier < 4 ==> modifier | 0x04 == modifier + 4) by (bit_vector);
            modifier |= 0x04;
        }
        if self.button_c {
            assert(modifier < 8 ==> modifier | 0x08 == modifier + 8) by (bit_vector);
            modifier |= 0x08;
        }
        modifier
    }

    pub fn mouse_buttons(&self) -> (buttons: u8)
        ensures
            buttons == self.mouse_buttons_spec(),
    {
        let mut buttons = 0u8;
        assert(0u8 | 0x01u8 == 1u8) by (bit_vector);
        if self.button_c {
            buttons |= 0x01;
        }
        assert(buttons == bit_if(self.button_c, 1));
        if self.button_a {
            assert(buttons < 2 ==> buttons | 0x02 == buttons + 2) by (bit_vector);
            buttons |= 0x02;
        }
        if self.button_b {
            assert(buttons < 4 ==> buttons | 0x04 == buttons + 4) by (bit_vector);
            buttons |= 0x04;
        }
        buttons
    }
}

/// Each button has a bit of its own in the modifier byte and in the mouse
/// button byte, and no other bit is ever set.
pub proof fn law_button_bits(s: UsbInputState)
    ensures
        ((s.modifier_spec() as u8) & 0x01 != 0) == s.button_a,
        ((s.modifier_spec() as u8) & 0x02 != 0) == s.button_d,
        ((s.modifier_spec() as u8) & 0x04 != 0) == s.button_b,
        ((s.modifier_spec() as u8) & 0x08 != 0) == s.button_c,
        s.modifier_spec() < 16,
        ((s.mouse_buttons_spec() as u8) & 0x01 != 0) == s.button_c,
        ((s.mouse_buttons_spec() as u8) & 0x02 != 0) == s.button_a,
        ((s.mouse_buttons_spec() as u8) & 0x04 != 0) == s.button_b,
        s.mouse_buttons_spec() < 8,
{
    let a = s.button_a;
    let b = s.button_b;
    let c = s.button_c;
    let d = s.button_d;
    let m: u8 = s.modifier_spec() as u8;
    let n: u8 = s.mouse_buttons_spec() as u8;
    assert(m == (if a { 1u8 } else { 0u8 }) + (if d { 2u8 } else { 0u8 }) + (if b { 4u8 } else { 0u8 }) + (if c { 8u8 } else { 0u8 }));
    assert(n == (if c { 1u8 } else { 0u8 }) + (if a { 2u8 } else { 0u8 }) + (if b { 4u8 } else { 0u8 }));
    assert(m == (if a { 1u8 } else { 0u8 }) + (if d { 2u8 } else { 0u8 }) + (if b { 4u8 } else { 0u8 }) + (if c { 8u8 } else { 0u8 }) ==> {
        &&& (m & 0x01 != 0) == a
        &&& (m & 0x02 != 0) == d
        &&& (m & 0x04 != 0) == b
        &&& (m & 0x08 != 0) == c
    }) by (bit_vector);
    assert(n == (if c { 1u8 } else { 0u8 }) + (if a { 2u8 } else { 0u8 }) + (if b { 4u8 } else { 0u8 }) ==> {
        &&& (n & 0x01 != 0) == c
        &&& (n & 0x02 != 0) == a
        &&& (n & 0x04 != 0) == b
    }) by (bit_vector);
}

impl Default for UsbInputState {
    fn default() -> (s: UsbInputState)
        ensures
            s == UsbInputState::default_spec(),
    {
        UsbInputState { button_a: false, button_b: false, button_c: false, button_d: false }
    }
}

/// Pressing and then releasing a button leaves the same state as releasing it
/// alone: the modifier and mouse button bytes go back to what they were
/// before the press, if the button was up then.
pub proof fn law_press_then_release(s: UsbInputState, b: Button)
    ensures
        s.with(b, true).with(b, false) == s.with(b, false),
        s.with(b, true).with(b, false).modifier_spec() == s.with(b, false).modifier_spec(),
        s.with(b, true).with(b, false).mouse_buttons_spec() == s.with(b, false).mouse_buttons_spec(),
{
}

/// After a detent that is neither the first nor after a stall, the newest
/// interval is the time since the last detent, the history holds one or two
/// intervals, and the step is the one for their arithmetic mean: the single
/// interval itself, or the two added and halved.
pub proof fn law_step_follows_mean_interval(e: RotarySpeedEstimator, now: u64, direction: Direction)
    requires
        e.wf(),
        e.last_at() matches Some(l) && l <= now && millis_of_ticks((now - l) as u64)
            <= ROTARY_STALL_MS,
    ensures
        ({
            let l = e.last_at()->0;
            let h = e.tick_history(now, direction);
            &&& 1 <= h.len() <= 2
            &&& h.last() == millis_of_ticks((now - l) as u64) as u32
            &&& h.len() == 1 ==> e.tick_step(now, direction) == move_step_spec(h[0])
            &&& h.len() == 2 ==> e.tick_step(now, direction) == move_step_spec(
                ((h[0] as int + h[1] as int) / 2) as u32,
            )
        }),
{
    let h = e.tick_history(now, direction);
    assert(e.history().len() <= 2);
    if h.len() == 1 {
        assert(h.drop_last().len() == 0);
        assert(dt_sum(h) == dt_sum(h.drop_last()) + h[0]);
    } else if h.len() == 2 {
        let h1 = h.drop_last();
        assert(h1.drop_last().len() == 0);
        assert(dt_sum(h1) == dt_sum(h1.drop_last()) + h1[0]);
        assert(dt_sum(h) == dt_sum(h1) + h[1]);
    }
}

/// A detent moves the pointer by the step, or scrolls by one, along the chosen
/// axis: a clockwise detent in the positive direction, a counter-clockwise one
/// by exactly the negated amount; every other field is zero and the buttons
/// are passed through.
pub proof fn law_rotary_report_direction(buttons: u8, modes: Modes, move_step: int)
    requires
        MIN_MOVE_STEP <= move_step <= MAX_MOVE_STEP,
    ensures
        ({
            let cw = rotary_report_spec(buttons, modes, move_step, Direction::Clockwise);
            let ccw = rotary_report_spec(buttons, modes, move_step, Direction::CounterClockwise);
            &&& cw.buttons == buttons && ccw.buttons == buttons
            &&& modes.pointer_mode == PointerMode::Move && modes.movement_axis == MovementAxis::X
                ==> cw.x == move_step && ccw.x == -move_step && cw.y == 0 && ccw.y == 0
                && cw.wheel == 0 && ccw.wheel == 0 && cw.pan == 0 && ccw.pan == 0
            &&& modes.pointer_mode == PointerMode::Move && modes.movement_axis == MovementAxis::Y
                ==> cw.y == move_step && ccw.y == -move_step && cw.x == 0 && ccw.x == 0
                && cw.wheel == 0 && ccw.wheel == 0 && cw.pan == 0 && ccw.pan == 0
            &&& modes.pointer_mode == PointerMode::Scroll && modes.movement_axis == MovementAxis::Y
                ==> cw.wheel == 1 && ccw.wheel == -1 && cw.x == 0 && ccw.x == 0 && cw.y == 0
                && ccw.y == 0 && cw.pan == 0 && ccw.pan == 0
            &&& modes.pointer_mode == PointerMode::Scroll && modes.movement_axis == MovementAxis::X
                ==> cw.pan == 1 && ccw.pan == -1 && cw.x == 0 && ccw.x == 0 && cw.y == 0
                && ccw.y == 0 && cw.wheel == 0 && ccw.wheel == 0
        }),
{
}

/// A HID boot keyboard input report.
#[derive(Clone, Copy, PartialEq, Eq, Debug)]
pub struct KeyboardReport {
    pub modifier: u8,
    pub reserved: u8,
    pub leds: u8,
    pub keycodes: [u8; 6],
}

/// A HID mouse input report.
#[derive(Clone, Copy, PartialEq, Eq, Structural, Debug)]
pub struct MouseReport {
    pub buttons: u8,
    pub x: i8,
    pub y: i8,
    pub wheel: i8,
    pub pan: i8,
}

/// Whether `r` is the keyboard report with this modifier byte and at most one key down.
pub open spec fn is_keyboard_report(r: KeyboardReport, modifier: int, keycode: Option<u8>) -> bool {
    &&& r.modifier == modifier
    &&& r.reserved == 0
    &&& r.leds == 0
    &&& r.keycodes@ =~= seq![
        match keycode {
            Some(code) => code,
            None => 0u8,
        },
        0u8,
        0u8,
        0u8,
        0u8,
        0u8,
    ]
}

/// A keyboard report with the given modifiers and no key down.
pub fn keyboard_release_report(modifier: u8) -> (r: KeyboardReport)
    ensures
        is_keyboard_report(r, modifier as int, None),
{
    let r = KeyboardReport { modifier, reserved: 0, leds: 0, keycodes: [0, 0, 0, 0, 0, 0] };
    assert(r.keycodes@ =~= seq![0u8, 0u8, 0u8, 0u8, 0u8, 0u8]);
    r
}

/// A keyboard report with the given modifiers and, if given, that key down.
pub fn keyboard_report(modifier: u8, keycode: Option<u8>) -> (r: KeyboardReport)
    ensures
        is_keyboard_report(r, modifier as int, keycode),
{
    let mut report = keyboard_release_report(modifier);
    if let Some(code) = keycode {
        report.keycodes[0] = code;
    }
    assert(report.keycodes@ =~= seq![
        match keycode {
            Some(code) => code,
            None => 0u8,
        },
        0u8,
        0u8,
        0u8,
        0u8,
        0u8,
    ]);
    report
}

pub fn mouse_report(buttons: u8, x: i8, y: i8, wheel: i8, pan: i8) -> (r: MouseReport)
    ensures
        r == (MouseReport { buttons, x, y, wheel, pan }),
{
    MouseReport { buttons, x, y, wheel, pan }
}

/// +1 for a clockwise detent, -1 for a counter-clockwise one.
pub open spec fn direction_sign(direction: Direction) -> int {
    match direction {
        Direction::Clockwise => 1,
        Direction::CounterClockwise => -1,
    }
}

/// The mouse report for one detent in mouse mode: the pointer moves by
/// `move_step` along the chosen axis, or the wheel (Y) or pan (X) scrolls by
/// one, in the direction of the detent.
pub open spec fn rotary_report_spec(
    buttons: u8,
    modes: Modes,
    move_step: int,
    direction: Direction,
) -> MouseReport {
    let sign = direction_sign(direction);
    if modes.pointer_mode == PointerMode::Move {
        if modes.movement_axis == MovementAxis::Y {
            MouseReport { buttons, x: 0, y: (move_step * sign) as i8, wheel: 0, pan: 0 }
        } else {
            MouseReport { buttons, x: (move_step * sign) as i8, y: 0, wheel: 0, pan: 0 }
        }
    } else if modes.movement_axis == MovementAxis::Y {
        MouseReport { buttons, x: 0, y: 0, wheel: (SCROLL_STEP * sign) as i8, pan: 0 }
    } else {
        MouseReport { buttons, x: 0, y: 0, wheel: 0, pan: (SCROLL_STEP * sign) as i8 }
    }
}

/// The mouse report for a detent, given the move step that the speed estimate gave.
pub fn rotary_mouse_report(buttons: u8, modes: Modes, move_step: i8, direction: Direction) -> (r:
    MouseReport)
    requires
        MIN_MOVE_STEP <= move_step <= MAX_MOVE_STEP,
    ensures
        r == rotary_report_spec(buttons, modes, move_step as int, direction),
{
    let dir: i8 = match direction {
        Direction::Clockwise => 1,
        Direction::CounterClockwise => -1,
    };
    let scroll_step = SCROLL_STEP;
    if modes.pointer_mode == PointerMode::Move {
        let step = move_step * dir;
        if modes.movement_axis == MovementAxis::Y {
            mouse_report(buttons, 0, step, 0, 0)
        } else {
            mouse_report(buttons, step, 0, 0, 0)
        }
    } else if modes.movement_axis == MovementAxis::Y {
        mouse_report(buttons, 0, 0, scroll_step * dir, 0)
    } else {
        mouse_report(buttons, 0, 0, 0, scroll_step * dir)
    }
}


/// A report for one of the two HID interfaces.
#[derive(Clone, Copy, PartialEq, Eq, Debug)]
pub enum HidReport {
    Keyboard(KeyboardReport),
    Mouse(MouseReport),
}

/// Whether the button is one of the three that act as mouse buttons.
pub open spec fn is_mouse_button(button: Button) -> bool {
    button == Button::A || button == Button::B || button == Button::C
}

/// The decisions of the USB HID task: what each input event and each mode
/// change makes the pad send.
pub struct HidController {
    pub state: UsbInputState,
    /// The key held down with the encoder button in keyboard mode.
    pub encoder_keycode: Option<u8>,
    pub rotary_speed: RotarySpeedEstimator,
}

impl HidController {
    pub open spec fn wf(&self) -> bool {
        self.rotary_speed.wf()
    }

    pub fn new() -> (c: HidController)
        ensures
            c.wf(),
            c.state == UsbInputState::default_spec(),
            c.encoder_keycode == None::<u8>,
            c.rotary_speed.last_at() == None::<u64>,
            c.rotary_speed.last_dir() == None::<Direction>,
            c.rotary_speed.history() == Seq::<u32>::empty(),
    {
        HidController {
            state: UsbInputState::default(),
            encoder_keycode: None,
            rotary_speed: RotarySpeedEstimator::default(),
        }
    }

    /// On a main mode switch everything is let go: the held buttons and key
    /// are forgotten, the speed estimate starts over, and an all-released
    /// keyboard report and an all-zero mouse report are sent. A sub mode
    /// change sends nothing.
    pub fn on_mode_change(&mut self, mode: ModeChange) -> (reports: Vec<HidReport>)
        requires
            old(self).wf(),
        ensures
            final(self).wf(),
            match mode {
                ModeChange::MainMode => {
                    &&& final(self).state == UsbInputState::default_spec()
                    &&& final(self).encoder_keycode == None::<u8>
                    &&& final(self).rotary_speed.last_at() == None::<u64>
                    &&& final(self).rotary_speed.last_dir() == None::<Direction>
                    &&& final(self).rotary_speed.history() == Seq::<u32>::empty()
                    &&& reports.len() == 2
                    &&& reports[0] matches HidReport::Keyboard(k) && is_keyboard_report(k, 0, None)
                    &&& reports[1] matches HidReport::Mouse(m) && m == (MouseReport {
                        buttons: 0,
                        x: 0,
                        y: 0,
                        wheel: 0,
                        pan: 0,
                    })
                },
                ModeChange::SubMode => {
                    &&& final(self).state == old(self).state
                    &&& final(self).encoder_keycode == old(self).encoder_keycode
                    &&& final(self).rotary_speed == old(self).rotary_speed
                    &&& reports.len() == 0
                },
            },
    {
        let mut reports: Vec<HidReport> = Vec::new();
        if let ModeChange::MainMode = mode {
            self.state.clear();
            self.encoder_keycode = None;
            self.rotary_speed.reset();
            reports.push(HidReport::Keyboard(keyboard_release_report(0)));
            reports.push(HidReport::Mouse(mouse_report(0, 0, 0, 0, 0)));
        }
        reports
    }

    /// Handles one input event in the given modes. `current_index` is the
    /// selected key and `now` the clock reading at the event. Returns the
    /// report to send, if any.
    pub fn on_input(&mut self, event: InputEvent, modes: Modes, current_index: usize, now: u64) -> (report:
        Option<HidReport>)
        requires
            old(self).wf(),
            event == InputEvent::ButtonPress(Button::Encoder) && modes.main_mode == MainMode::Keyboard
                ==> current_index < KEY_LENGTH,
            event is Rotary && modes.main_mode == MainMode::Mouse ==> old(self).rotary_speed.accepts(
                now,
            ),
        ensures
            final(self).wf(),
            match event {
                InputEvent::ButtonPress(b) => {
                    &&& final(self).state == old(self).state.with(b, true)
                    &&& final(self).rotary_speed == old(self).rotary_speed
                    &&& if modes.main_mode == MainMode::Keyboard {
                        &&& final(self).encoder_keycode == if b == Button::Encoder {
                            Some(keymap(current_index).keycode)
                        } else {
                            old(self).encoder_keycode
                        }
                        &&& report matches Some(HidReport::Keyboard(k)) && is_keyboard_report(
                            k,
                            final(self).state.modifier_spec(),
                            final(self).encoder_keycode,
                        )
                    } else {
                        &&& final(self).encoder_keycode == old(self).encoder_keycode
                        &&& if is_mouse_button(b) {
                            report == Some(
                                HidReport::Mouse(
                                    MouseReport {
                                        buttons: final(self).state.mouse_buttons_spec() as u8,
                                        x: 0,
                                        y: 0,
                                        wheel: 0,
                                        pan: 0,
                                    },
                                ),
                            )
                        } else {
                            report is None
                        }
                    }
                },
                InputEvent::ButtonRelease(b) => {
                    &&& final(self).state == old(self).state.with(b, false)
                    &&& final(self).rotary_speed == old(self).rotary_speed
                    &&& if modes.main_mode == MainMode::Keyboard {
                        &&& final(self).encoder_keycode == if b == Button::Encoder {
                            None
                        } else {
                            old(self).encoder_keycode
                        }
                        &&& report matches Some(HidReport::Keyboard(k)) && is_keyboard_report(
                            k,
                            final(self).state.modifier_spec(),
                            final(self).encoder_keycode,
                        )
                    } else {
                        &&& final(self).encoder_keycode == old(self).encoder_keycode
                        &&& if is_mouse_button(b) {
                            report == Some(
                                HidReport::Mouse(
                                    MouseReport {
                                        buttons: final(self).state.mouse_buttons_spec() as u8,
                                        x: 0,
                                        y: 0,
                                        wheel: 0,
                                        pan: 0,
                                    },
                                ),
                            )
                        } else {
                            report is None
                        }
                    }
                },
                InputEvent::Rotary(dir) => {
                    &&& final(self).state == old(self).state
                    &&& final(self).encoder_keycode == old(self).encoder_keycode
                    &&& if modes.main_mode == MainMode::Mouse {
                        &&& final(self).rotary_speed.last_at() == Some(now)
                        &&& final(self).rotary_speed.last_dir() == Some(dir)
                        &&& final(self).rotary_speed.history()
                            == old(self).rotary_speed.tick_history(now, dir)
                        &&& report == Some(
                            HidReport::Mouse(
                                rotary_report_spec(
                                    old(self).state.mouse_buttons_spec() as u8,
                                    modes,
                                    old(self).rotary_speed.tick_step(now, dir),
                                    dir,
                                ),
                            ),
                        )
                    } else {
                        &&& final(self).rotary_speed == old(self).rotary_speed
                        &&& report is None
                    }
                },
            },
    {
        match event {
            InputEvent::ButtonPress(button) => {
                self.state.set_pressed(button, true);
                if modes.main_mode == MainMode::Keyboard {
                    if matches!(button, Button::A | Button::B | Button::C | Button::D) {
                        Some(
                            HidReport::Keyboard(
                                keyboard_report(self.state.keyboard_modifier(), self.encoder_keycode),
                            ),
                        )
                    } else {
                        let keycode = key_info(current_index).keycode;
                        self.encoder_keycode = Some(keycode);
                        Some(
                            HidReport::Keyboard(
                                keyboard_report(self.state.keyboard_modifier(), self.encoder_keycode),
                            ),
                        )
                    }
                } else if matches!(button, Button::A | Button::B | Button::C) {
                    Some(HidReport::Mouse(mouse_report(self.state.mouse_buttons(), 0, 0, 0, 0)))
                } else {
                    None
                }
            },
            InputEvent::ButtonRelease(button) => {
                self.state.set_pressed(button, false);
                if modes.main_mode == MainMode::Keyboard {
                    match button {
                        Button::A | Button::B | Button::C | Button::D => {
                            Some(
                                HidReport::Keyboard(
                                    keyboard_report(
                                        self.state.keyboard_modifier(),
                                        self.encoder_keycode,
                                    ),
                                ),
                            )
                        },
                        Button::Encoder => {
                            self.encoder_keycode = None;
                            Some(
                                HidReport::Keyboard(
                                    keyboard_release_report(self.state.keyboard_modifier()),
                                ),
                            )
                        },
                    }
                } else if matches!(button, Button::A | Button::B | Button::C) {
                    Some(HidReport::Mouse(mouse_report(self.state.mouse_buttons(), 0, 0, 0, 0)))
                } else {
                    None
                }
            },
            InputEvent::Rotary(direction) => {
                if modes.main_mode == MainMode::Mouse {
                    let move_step = self.rotary_speed.move_step_for_tick(now, &direction);
                    Some(
                        HidReport::Mouse(
                            rotary_mouse_report(
                                self.state.mouse_buttons(),
                                modes,
                                move_step,
                                direction,
                            ),
                        ),
                    )
                } else {
                    None
                }
            },
        }
    }
}

} // verus!
