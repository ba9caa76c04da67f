use mizet_fw::shared::{
    load_main_mode, load_modes, load_movement_axis, load_pointer_mode, store_main_mode,
    store_movement_axis, store_pointer_mode, toggle_main_mode, toggle_movement_axis,
    toggle_pointer_mode, MainMode, Modes, MovementAxis, PointerMode, SharedState,
};

#[test]
fn mode_bytes_convert_both_ways() {
    assert_eq!(u8::from(MainMode::Keyboard), 0);
    assert_eq!(u8::from(MainMode::Mouse), 1);
    assert_eq!(u8::from(PointerMode::Move), 0);
    assert_eq!(u8::from(PointerMode::Scroll), 1);
    assert_eq!(u8::from(MovementAxis::Y), 0);
    assert_eq!(u8::from(MovementAxis::X), 1);
    assert_eq!(MainMode::try_from(0u8), Ok(MainMode::Keyboard));
    assert_eq!(MainMode::try_from(1u8), Ok(MainMode::Mouse));
    assert_eq!(PointerMode::try_from(1u8), Ok(PointerMode::Scroll));
    assert_eq!(MovementAxis::try_from(1u8), Ok(MovementAxis::X));
    for m in [MainMode::Keyboard, MainMode::Mouse] {
        assert_eq!(MainMode::try_from(u8::from(m)), Ok(m));
    }
}

#[test]
fn bytes_outside_the_modes_are_refused() {
    for v in 2..=255u8 {
        assert_eq!(MainMode::try_from(v), Err(()));
        assert_eq!(PointerMode::try_from(v), Err(()));
        assert_eq!(MovementAxis::try_from(v), Err(()));
    }
}

#[test]
fn initial_state_reads_keyboard_move_y() {
    let s = SharedState::new();
    assert_eq!(
        load_modes(&s),
        Modes {
            main_mode: MainMode::Keyboard,
            pointer_mode: PointerMode::Move,
            movement_axis: MovementAxis::Y
        }
    );
    assert_eq!(s.current_index, 0);
}

#[test]
fn invalid_bytes_read_as_defaults() {
    let s = SharedState { main_mode: 7, pointer_mode: 200, movement_axis: 2, current_index: 3 };
    assert_eq!(load_main_mode(&s), MainMode::Keyboard);
    assert_eq!(load_pointer_mode(&s), PointerMode::Move);
    assert_eq!(load_movement_axis(&s), MovementAxis::Y);
}

#[test]
fn load_after_store_gives_the_stored_mode() {
    let mut s = SharedState::new();
    store_main_mode(&mut s, MainMode::Mouse);
    assert_eq!(load_main_mode(&s), MainMode::Mouse);
    store_pointer_mode(&mut s, PointerMode::Scroll);
    assert_eq!(load_pointer_mode(&s), PointerMode::Scroll);
    store_movement_axis(&mut s, MovementAxis::X);
    assert_eq!(load_movement_axis(&s), MovementAxis::X);
    assert_eq!(load_main_mode(&s), MainMode::Mouse);
    assert_eq!(s.current_index, 0);
}

#[test]
fn toggles_switch_and_switch_back() {
    let mut s = SharedState::new();
    assert_eq!(toggle_main_mode(&mut s), MainMode::Mouse);
    assert_eq!(load_main_mode(&s), MainMode::Mouse);
    assert_eq!(toggle_main_mode(&mut s), MainMode::Keyboard);
    assert_eq!(toggle_pointer_mode(&mut s), PointerMode::Scroll);
    assert_eq!(toggle_pointer_mode(&mut s), PointerMode::Move);
    assert_eq!(toggle_movement_axis(&mut s), MovementAxis::X);
    assert_eq!(toggle_movement_axis(&mut s), MovementAxis::Y);
    assert_eq!(load_main_mode(&s), MainMode::Keyboard);
}

#[test]
fn toggle_from_an_invalid_byte_starts_from_the_default() {
    let mut s = SharedState { main_mode: 9, pointer_mode: 9, movement_axis: 9, current_index: 0 };
    assert_eq!(toggle_main_mode(&mut s), MainMode::Mouse);
    assert_eq!(s.main_mode, 1);
    assert_eq!(toggle_main_mode(&mut s), MainMode::Keyboard);
    assert_eq!(toggle_pointer_mode(&mut s), PointerMode::Scroll);
    assert_eq!(toggle_movement_axis(&mut s), MovementAxis::X);
}
