//! Debouncing of a push button: after the line changes, the firmware waits a
//! few milliseconds and reports the change only if the line still holds it.

use vstd::prelude::*;
use crate::shared::{Button, InputEvent};

verus! {

/// How long a changed level must hold before the change counts.
pub const DEBOUNCE_DELAY_MS: u64 = 8;

/// Which edge of the (active-low) button line the debouncer waits for.
#[derive(Clone, Copy, PartialEq, Eq, Structural, Debug)]
pub enum ButtonPhase {
    /// Waiting for the line to go low: a press.
    AwaitPress,
    /// Waiting for the line to go high: a release.
    AwaitRelease,
}

/// The debouncing of one button.
#[derive(Clone, Copy, PartialEq, Eq, Structural, Debug)]
pub struct Debouncer {
    pub button: Button,
    pub phase: ButtonPhase,
}

impl Debouncer {
    pub fn new(button: Button) -> (d: Debouncer)
        ensures
            d.button == button,
            d.phase == ButtonPhase::AwaitPress,
    {
        Debouncer { button, phase: ButtonPhase::AwaitPress }
    }

    /// Called once the awaited edge came and the debounce delay passed, with
    /// the level of the line then. Reports the press (or release) if the line
    /// still holds the new level; either way the debouncer then waits for the
    /// opposite edge.
    pub fn settle(&mut self, is_low: bool) -> (event: Option<InputEvent>)
        ensures
            final(self).button == old(self).button,
            final(self).phase == match old(self).phase {
                ButtonPhase::AwaitPress => ButtonPhase::AwaitRelease,
                ButtonPhase::AwaitRelease => ButtonPhase::AwaitPress,
            },
            event == match old(self).phase {
                ButtonPhase::AwaitPress => if is_low {
                    Some(InputEvent::ButtonPress(old(self).button))
                } else {
                    None
                },
                ButtonPhase::AwaitRelease => if !is_low {
                    Some(InputEvent::ButtonRelease(old(self).button))
                } else {
                    None
                },
            },
    {
        match self.phase {
            ButtonPhase::AwaitPress => {
                self.phase = ButtonPhase::AwaitRelease;
                if is_low {
                    Some(InputEvent::ButtonPress(self.button))
                } else {
                    None
                }
            },
            ButtonPhase::AwaitRelease => {
                self.phase = ButtonPhase::AwaitPress;
                if !is_low {
                    Some(InputEvent::ButtonRelease(self.button))
                } else {
                    None
                }
            },
        }
    }
}

} // verus!
