//! The mode switching of the pad: a short tap on button D switches between
//! keyboard and mouse mode; in mouse mode the encoder button switches the
//! axis, or, while D is held, switches between moving and scrolling.

use vstd::prelude::*;
use crate::clock::{elapsed_millis, millis_of_ticks};
use crate::shared::{
    load_main_mode, main_mode_read, movement_axis_read, pointer_mode_read, toggle_main_mode,
    toggle_movement_axis, toggle_pointer_mode, Button, InputEvent, MainMode, ModeChange,
    SharedState,
};

verus! {

/// A release of D less than this many milliseconds after its press is a tap.
pub const TAP_THRESHOLD_MS: u64 = 250;

/// What the mode switching remembers of button D.
#[derive(Clone, Copy, PartialEq, Eq, Structural, Debug)]
pub struct InputHandler {
    pub button_d_pressed: bool,
    /// The clock reading at which D went down.
    pub button_d_press_start: Option<u64>,
}

/// `state` with its main mode switched; the other modes and the key stay.
pub open spec fn with_main_toggled(state: SharedState) -> SharedState {
    SharedState { main_mode: main_mode_read(state.main_mode).toggled().code(), ..state }
}

/// `state` with its pointer mode switched; the other modes and the key stay.
pub open spec fn with_pointer_toggled(state: SharedState) -> SharedState {
    SharedState { pointer_mode: pointer_mode_read(state.pointer_mode).toggled().code(), ..state }
}

/// `state` with its movement axis switched; the other modes and the key stay.
pub open spec fn with_axis_toggled(state: SharedState) -> SharedState {
    SharedState {
        movement_axis: movement_axis_read(state.movement_axis).toggled().code(),
        ..state
    }
}

impl InputHandler {
    pub fn new() -> (h: InputHandler)
        ensures
            !h.button_d_pressed,
            h.button_d_press_start == None::<u64>,
    {
        InputHandler { button_d_pressed: false, button_d_press_start: None }
    }

    /// Whether `now` is a clock reading that may follow the press of D.
    pub open spec fn accepts(self, now: u64) -> bool {
        self.button_d_press_start matches Some(s) ==> s <= now
    }

    /// Whether a release of D at `now` ends a tap.
    pub open spec fn is_tap(self, now: u64) -> bool {
        self.button_d_press_start matches Some(s) && millis_of_ticks((now - s) as u64)
            < TAP_THRESHOLD_MS
    }

    /// What the handler remembers after `event` at clock reading `now`.
    pub open spec fn next(self, event: InputEvent, now: u64) -> InputHandler {
        match event {
            InputEvent::ButtonPress(Button::D) => InputHandler {
                button_d_pressed: true,
                button_d_press_start: Some(now),
            },
            InputEvent::ButtonRelease(Button::D) => InputHandler {
                button_d_pressed: false,
                button_d_press_start: None,
            },
            _ => self,
        }
    }

    /// The shared state after `event` at clock reading `now`.
    pub open spec fn next_shared(self, shared: SharedState, event: InputEvent, now: u64) -> SharedState {
        match event {
            InputEvent::ButtonPress(Button::Encoder) => {
                if main_mode_read(shared.main_mode) == MainMode::Mouse {
                    if self.button_d_pressed {
                        with_pointer_toggled(shared)
                    } else {
                        with_axis_toggled(shared)
                    }
                } else {
                    shared
                }
            },
            InputEvent::ButtonRelease(Button::D) => {
                if self.is_tap(now) {
                    with_main_toggled(shared)
                } else {
                    shared
                }
            },
            _ => shared,
        }
    }

    /// The mode change to announce after `event` at clock reading `now`, if any.
    pub open spec fn announced(self, shared: SharedState, event: InputEvent, now: u64) -> Option<
        ModeChange,
    > {
        match event {
            InputEvent::ButtonPress(Button::Encoder) => {
                if main_mode_read(shared.main_mode) == MainMode::Mouse {
                    Some(ModeChange::SubMode)
                } else {
                    None
                }
            },
            InputEvent::ButtonRelease(Button::D) => {
                if self.is_tap(now) {
                    Some(ModeChange::MainMode)
                } else {
                    None
                }
            },
            _ => None,
        }
    }

    /// Handles one input event at clock reading `now`: updates the shared
    /// modes and returns the mode change to announce, if any.
    pub fn handle(&mut self, event: InputEvent, now: u64, shared: &mut SharedState) -> (change:
        Option<ModeChange>)
        requires
            event == InputEvent::ButtonRelease(Button::D) ==> old(self).accepts(now),
        ensures
            *final(self) == old(self).next(event, now),
            *final(shared) == old(self).next_shared(*old(shared), event, now),
            change == old(self).announced(*old(shared), event, now),
    {
        match event {
            InputEvent::ButtonPress(button) => {
                if let Button::D = button {
                    self.button_d_pressed = true;
                    self.button_d_press_start = Some(now);
                }
                if let Button::Encoder = button {
                    let is_keyboard_mode = load_main_mode(shared) == MainMode::Keyboard;
                    if !is_keyboard_mode {
                        if self.button_d_pressed {
                            toggle_pointer_mode(shared);
                        } else {
                            toggle_movement_axis(shared);
                        }
                        return Some(ModeChange::SubMode);
                    }
                }
                None
            },
            InputEvent::ButtonRelease(Button::D) => {
                let mut change = None;
                if let Some(start_time) = self.button_d_press_start {
                    let press_duration = elapsed_millis(now, start_time);
                    if press_duration < TAP_THRESHOLD_MS {
                        toggle_main_mode(shared);
                        change = Some(ModeChange::MainMode);
                    }
                }
                self.button_d_pressed = false;
                self.button_d_press_start = None;
                change
            },
            _ => None,
        }
    }
}

/// Pressing D and releasing it again with less than the tap threshold in
/// between switches the main mode once, announces it, and leaves the other
/// modes, the selected key and the handler as they were before the press.
pub proof fn law_tap_switches_main_mode(h: InputHandler, s: SharedState, pressed_at: u64, released_at: u64)
    requires
        pressed_at <= released_at,
        millis_of_ticks((released_at - pressed_at) as u64) < TAP_THRESHOLD_MS,
    ensures
        ({
            let press = InputEvent::ButtonPress(Button::D);
            let release = InputEvent::ButtonRelease(Button::D);
            let h1 = h.next(press, pressed_at);
            let s1 = h.next_shared(s, press, pressed_at);
            let s2 = h1.next_shared(s1, release, released_at);
            &&& h.announced(s, press, pressed_at) == None::<ModeChange>
            &&& h1.announced(s1, release, released_at) == Some(ModeChange::MainMode)
            &&& s2.modes().main_mode == s.modes().main_mode.toggled()
            &&& s2.modes().pointer_mode == s.modes().pointer_mode
            &&& s2.modes().movement_axis == s.modes().movement_axis
            &&& s2.current_index == s.current_index
            &&& !h1.next(release, released_at).button_d_pressed
            &&& h1.next(release, released_at).button_d_press_start == None::<u64>
        }),
{
    let m = main_mode_read(s.main_mode);
    assert(main_mode_read(m.toggled().code()) == m.toggled());
}

/// In mouse mode an encoder press switches the axis that is read while D is
/// up, and the pointer mode while D is held, leaving the other mode and the
/// main mode as they were; a second press switches it back.
pub proof fn law_encoder_press_switches_sub_mode(h: InputHandler, s: SharedState, now: u64)
    requires
        s.modes().main_mode == MainMode::Mouse,
    ensures
        ({
            let press = InputEvent::ButtonPress(Button::Encoder);
            let s1 = h.next_shared(s, press, now);
            let s2 = h.next(press, now).next_shared(s1, press, now);
            &&& h.announced(s, press, now) == Some(ModeChange::SubMode)
            &&& s1.modes().main_mode == MainMode::Mouse
            &&& !h.button_d_pressed ==> s1.modes().movement_axis != s.modes().movement_axis
                && s1.modes().pointer_mode == s.modes().pointer_mode
            &&& h.button_d_pressed ==> s1.modes().pointer_mode != s.modes().pointer_mode
                && s1.modes().movement_axis == s.modes().movement_axis
            &&& s2.modes() == s.modes()
        }),
{
    let a = movement_axis_read(s.movement_axis);
    let p = pointer_mode_read(s.pointer_mode);
    assert(movement_axis_read(a.toggled().code()) == a.toggled());
    assert(pointer_mode_read(p.toggled().code()) == p.toggled());
    assert(movement_axis_read(a.toggled().toggled().code()) == a);
    assert(pointer_mode_read(p.toggled().toggled().code()) == p);
}

/// Holding D longer than the tap threshold switches nothing.
pub proof fn law_long_press_keeps_modes(h: InputHandler, s: SharedState, pressed_at: u64, released_at: u64)
    requires
        pressed_at <= released_at,
        millis_of_ticks((released_at - pressed_at) as u64) >= TAP_THRESHOLD_MS,
    ensures
        ({
            let press = InputEvent::ButtonPress(Button::D);
            let release = InputEvent::ButtonRelease(Button::D);
            let h1 = h.next(press, pressed_at);
            let s1 = h.next_shared(s, press, pressed_at);
            &&& h1.next_shared(s1, release, released_at) == s
            &&& h1.announced(s1, release, released_at) == None::<ModeChange>
        }),
{
}

} // verus!
