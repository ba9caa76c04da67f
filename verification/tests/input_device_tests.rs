use mizet_fw::button::{ButtonPhase, Debouncer};
use mizet_fw::encoder::{count_after_detent, on_detent};
use mizet_fw::keymap::KEY_LENGTH;
use mizet_fw::shared::{Button, Direction, InputEvent, SharedState};

#[test]
fn debouncer_reports_only_settled_changes() {
    let mut d = Debouncer::new(Button::C);
    assert_eq!(d.settle(true), Some(InputEvent::ButtonPress(Button::C)));
    assert_eq!(d.phase, ButtonPhase::AwaitRelease);
    assert_eq!(d.settle(false), Some(InputEvent::ButtonRelease(Button::C)));
    assert_eq!(d.phase, ButtonPhase::AwaitPress);
    // a bounce: the line is high again after the delay
    assert_eq!(d.settle(false), None);
    assert_eq!(d.phase, ButtonPhase::AwaitRelease);
    assert_eq!(d.settle(true), None);
    assert_eq!(d.phase, ButtonPhase::AwaitPress);
}

#[test]
fn detents_move_the_selection() {
    let mut s = SharedState::new();
    assert_eq!(on_detent(&mut s, Direction::CounterClockwise), InputEvent::Rotary(Direction::CounterClockwise));
    assert_eq!(s.current_index, KEY_LENGTH - 1);
    on_detent(&mut s, Direction::Clockwise);
    assert_eq!(s.current_index, 0);
    on_detent(&mut s, Direction::Clockwise);
    assert_eq!(s.current_index, 1);
}

#[test]
fn detent_count() {
    assert_eq!(count_after_detent(0, Direction::Clockwise), 1);
    assert_eq!(count_after_detent(0, Direction::CounterClockwise), -1);
    assert_eq!(count_after_detent(-5, Direction::CounterClockwise), -6);
}
