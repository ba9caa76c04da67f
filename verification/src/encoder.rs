//! What a detent of the rotary encoder does to the selected key.

use vstd::prelude::*;
use crate::keymap::{get_next_idx, get_prev_idx, next_index, prev_index, KEY_LENGTH};
use crate::shared::{Direction, InputEvent, SharedState};

verus! {

/// Handles one detent: a clockwise detent selects the next key, a
/// counter-clockwise one the previous key; returns the event to publish.
pub fn on_detent(shared: &mut SharedState, direction: Direction) -> (event: InputEvent)
    requires
        old(shared).current_index < KEY_LENGTH,
    ensures
        final(shared).current_index == match direction {
            Direction::Clockwise => next_index(old(shared).current_index as int),
            Direction::CounterClockwise => prev_index(old(shared).current_index as int),
        },
        final(shared).main_mode == old(shared).main_mode,
        final(shared).pointer_mode == old(shared).pointer_mode,
        final(shared).movement_axis == old(shared).movement_axis,
        event == InputEvent::Rotary(direction),
{
    let current_index = shared.current_index;
    match direction {
        Direction::Clockwise => {
            shared.current_index = get_next_idx(current_index);
        },
        Direction::CounterClockwise => {
            shared.current_index = get_prev_idx(current_index);
        },
    }
    InputEvent::Rotary(direction)
}

/// The detent count of the encoder test program after one more detent:
/// up by one clockwise, down by one counter-clockwise.
pub fn count_after_detent(count: i32, direction: Direction) -> (next: i32)
    requires
        match direction {
            Direction::Clockwise => count < i32::MAX,
            Direction::CounterClockwise => count > i32::MIN,
        },
    ensures
        next == count + match direction {
            Direction::Clockwise => 1int,
            Direction::CounterClockwise => -1int,
        },
{
    count + match direction {
        Direction::Clockwise => 1,
        Direction::CounterClockwise => -1,
    }
}

} // verus!
