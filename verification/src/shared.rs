//! Events and operating modes shared between the firmware tasks.

use vstd::prelude::*;

verus! {

/// A physical push button of the pad.
#[derive(Clone, Copy, PartialEq, Eq, Structural, Debug)]
pub enum Button {
    A,
    B,
    C,
    D,
    Encoder,
}

/// The direction of one encoder detent.
#[derive(Clone, Copy, PartialEq, Eq, Structural, Debug)]
pub enum Direction {
    Clockwise,
    CounterClockwise,
}

/// An event of the input devices.
#[derive(Clone, Copy, PartialEq, Eq, Structural, Debug)]
pub enum InputEvent {
    ButtonPress(Button),
    ButtonRelease(Button),
    Rotary(Direction),
}

/// Which of the modes was changed.
#[derive(Clone, Copy, PartialEq, Eq, Structural, Debug)]
pub enum ModeChange {
    MainMode,
    SubMode,
}

/// Whether the pad acts as a keyboard or as a mouse.
#[derive(Clone, Copy, PartialEq, Eq, Structural, Debug)]
pub enum MainMode {
    Keyboard,
    Mouse,
}

/// In mouse mode: whether the encoder moves the pointer or scrolls.
#[derive(Clone, Copy, PartialEq, Eq, Structural, Debug)]
pub enum PointerMode {
    Move,
    Scroll,
}

/// In mouse mode: the axis the encoder moves or scrolls along.
#[derive(Clone, Copy, PartialEq, Eq, Structural, Debug)]
pub enum MovementAxis {
    Y,
    X,
}

impl MainMode {
    /// The byte that stands for the mode in the shared state.
    pub open spec fn code(self) -> u8 {
        match self {
            MainMode::Keyboard => 0,
            MainMode::Mouse => 1,
        }
    }

    /// The mode a byte stands for, if any.
    pub open spec fn decode(v: u8) -> Result<MainMode, ()> {
        if v == 0 {
            Ok(MainMode::Keyboard)
        } else if v == 1 {
            Ok(MainMode::Mouse)
        } else {
            Err(())
        }
    }

    /// The other mode.
    pub open spec fn toggled(self) -> MainMode {
        match self {
            MainMode::Keyboard => MainMode::Mouse,
            MainMode::Mouse => MainMode::Keyboard,
        }
    }
}

impl PointerMode {
    /// The byte that stands for the mode in the shared state.
    pub open spec fn code(self) -> u8 {
        match self {
            PointerMode::Move => 0,
            PointerMode::Scroll => 1,
        }
    }

    /// The mode a byte stands for, if any.
    pub open spec fn decode(v: u8) -> Result<PointerMode, ()> {
        if v == 0 {
            Ok(PointerMode::Move)
        } else if v == 1 {
            Ok(PointerMode::Scroll)
        } else {
            Err(())
        }
    }

    /// The other mode.
    pub open spec fn toggled(self) -> PointerMode {
        match self {
            PointerMode::Move => PointerMode::Scroll,
            PointerMode::Scroll => PointerMode::Move,
        }
    }
}

impl MovementAxis {
    /// The byte that stands for the axis in the shared state.
    pub open spec fn code(self) -> u8 {
        match self {
            MovementAxis::Y => 0,
            MovementAxis::X => 1,
        }
    }

    /// The axis a byte stands for, if any.
    pub open spec fn decode(v: u8) -> Result<MovementAxis, ()> {
        if v == 0 {
            Ok(MovementAxis::Y)
        } else if v == 1 {
            Ok(MovementAxis::X)
        } else {
            Err(())
        }
    }

    /// The other axis.
    pub open spec fn toggled(self) -> MovementAxis {
        match self {
            MovementAxis::Y => MovementAxis::X,
            MovementAxis::X => MovementAxis::Y,
        }
    }
}

impl From<MainMode> for u8 {
    fn from(value: MainMode) -> (r: u8) {
        match value {
            MainMode::Keyboard => 0,
            MainMode::Mouse => 1,
        }
    }
}

impl vstd::std_specs::convert::FromSpecImpl<MainMode> for u8 {
    open spec fn obeys_from_spec() -> bool {
        true
    }

    open spec fn from_spec(v: MainMode) -> u8 {
        v.code()
    }
}

impl TryFrom<u8> for MainMode {
    type Error = ();

    fn try_from(value: u8) -> (r: Result<Self, Self::Error>) {
        match value {
            0 => Ok(MainMode::Keyboard),
            1 => Ok(MainMode::Mouse),
            _ => Err(()),
        }
    }
}

impl vstd::std_specs::convert::TryFromSpecImpl<u8> for MainMode {
    open spec fn obeys_try_from_spec() -> bool {
        true
    }

    open spec fn try_from_spec(v: u8) -> Result<Self, ()> {
        MainMode::decode(v)
    }
}


impl From<PointerMode> for u8 {
    fn from(value: PointerMode) -> (r: u8) {
        match value {
            PointerMode::Move => 0,
            PointerMode::Scroll => 1,
        }
    }
}

impl vstd::std_specs::convert::FromSpecImpl<PointerMode> for u8 {
    open spec fn obeys_from_spec() -> bool {
        true
    }

    open spec fn from_spec(v: PointerMode) -> u8 {
        v.code()
    }
}

impl TryFrom<u8> for PointerMode {
    type Error = ();

    fn try_from(value: u8) -> (r: Result<Self, Self::Error>) {
        match value {
            0 => Ok(PointerMode::Move),
            1 => Ok(PointerMode::Scroll),
            _ => Err(()),
        }
    }
}

impl vstd::std_specs::convert::TryFromSpecImpl<u8> for PointerMode {
    open spec fn obeys_try_from_spec() -> bool {
        true
    }

    open spec fn try_from_spec(v: u8) -> Result<Self, ()> {
        PointerMode::decode(v)
    }
}

impl From<MovementAxis> for u8 {
    fn from(value: MovementAxis) -> (r: u8) {
        match value {
            MovementAxis::Y => 0,
            MovementAxis::X => 1,
        }
    }
}

impl vstd::std_specs::convert::FromSpecImpl<MovementAxis> for u8 {
    open spec fn obeys_from_spec() -> bool {
        true
    }

    open spec fn from_spec(v: MovementAxis) -> u8 {
        v.code()
    }
}

impl TryFrom<u8> for MovementAxis {
    type Error = ();

    fn try_from(value: u8) -> (r: Result<Self, Self::Error>) {
        match value {
            0 => Ok(MovementAxis::Y),
            1 => Ok(MovementAxis::X),
            _ => Err(()),
        }
    }
}

impl vstd::std_specs::convert::TryFromSpecImpl<u8> for MovementAxis {
    open spec fn obeys_try_from_spec() -> bool {
        true
    }

    open spec fn try_from_spec(v: u8) -> Result<Self, ()> {
        MovementAxis::decode(v)
    }
}

/// The mode bytes and the selected key that the firmware tasks share.
///
/// Each field holds what one shared cell of the firmware holds. A byte that
/// stands for no mode reads as the default mode.
pub struct SharedState {
    pub main_mode: u8,
    pub pointer_mode: u8,
    pub movement_axis: u8,
    pub current_index: usize,
}

/// The three modes, read at once.
#[derive(Clone, Copy, PartialEq, Eq, Structural, Debug)]
pub struct Modes {
    pub main_mode: MainMode,
    pub pointer_mode: PointerMode,
    pub movement_axis: MovementAxis,
}

/// The main mode a stored byte reads as: the mode it stands for, else keyboard.
pub open spec fn main_mode_read(v: u8) -> MainMode {
    match MainMode::decode(v) {
        Ok(m) => m,
        Err(_) => MainMode::Keyboard,
    }
}

/// The pointer mode a stored byte reads as: the mode it stands for, else move.
pub open spec fn pointer_mode_read(v: u8) -> PointerMode {
    match PointerMode::decode(v) {
        Ok(m) => m,
        Err(_) => PointerMode::Move,
    }
}

/// The axis a stored byte reads as: the axis it stands for, else Y.
pub open spec fn movement_axis_read(v: u8) -> MovementAxis {
    match MovementAxis::decode(v) {
        Ok(m) => m,
        Err(_) => MovementAxis::Y,
    }
}

impl SharedState {
    /// The state at power-up: keyboard mode, pointer moves, Y axis, first key.
    pub fn new() -> (s: SharedState)
        ensures
            s.main_mode == MainMode::Keyboard.code(),
            s.pointer_mode == PointerMode::Move.code(),
            s.movement_axis == MovementAxis::Y.code(),
            s.current_index == 0,
    {
        SharedState { main_mode: 0, pointer_mode: 0, movement_axis: 0, current_index: 0 }
    }

    /// The modes that the three bytes read as.
    pub open spec fn modes(self) -> Modes {
        Modes {
            main_mode: main_mode_read(self.main_mode),
            pointer_mode: pointer_mode_read(self.pointer_mode),
            movement_axis: movement_axis_read(self.movement_axis),
        }
    }
}

pub fn load_main_mode(state: &SharedState) -> (m: MainMode)
    ensures
        m == main_mode_read(state.main_mode),
{
    match MainMode::try_from(state.main_mode) {
        Ok(m) => m,
        Err(_) => MainMode::Keyboard,
    }
}

pub fn store_main_mode(state: &mut SharedState, mode: MainMode)
    ensures
        final(state).main_mode == mode.code(),
        final(state).pointer_mode == old(state).pointer_mode,
        final(state).movement_axis == old(state).movement_axis,
        final(state).current_index == old(state).current_index,
{
    state.main_mode = u8::from(mode);
}

pub fn toggle_main_mode(state: &mut SharedState) -> (next: MainMode)
    ensures
        next == main_mode_read(old(state).main_mode).toggled(),
        final(state).main_mode == next.code(),
        final(state).pointer_mode == old(state).pointer_mode,
        final(state).movement_axis == old(state).movement_axis,
        final(state).current_index == old(state).current_index,
{
    let next = match load_main_mode(state) {
        MainMode::Keyboard => MainMode::Mouse,
        MainMode::Mouse => MainMode::Keyboard,
    };
    store_main_mode(state, next);
    next
}

pub fn load_pointer_mode(state: &SharedState) -> (m: PointerMode)
    ensures
        m == pointer_mode_read(state.pointer_mode),
{
    match PointerMode::try_from(state.pointer_mode) {
        Ok(m) => m,
        Err(_) => PointerMode::Move,
    }
}

pub fn store_pointer_mode(state: &mut SharedState, mode: PointerMode)
    ensures
        final(state).pointer_mode == mode.code(),
        final(state).main_mode == old(state).main_mode,
        final(state).movement_axis == old(state).movement_axis,
        final(state).current_index == old(state).current_index,
{
    state.pointer_mode = u8::from(mode);
}

pub fn toggle_pointer_mode(state: &mut SharedState) -> (next: PointerMode)
    ensures
        next == pointer_mode_read(old(state).pointer_mode).toggled(),
        final(state).pointer_mode == next.code(),
        final(state).main_mode == old(state).main_mode,
        final(state).movement_axis == old(state).movement_axis,
        final(state).current_index == old(state).current_index,
{
    let next = match load_pointer_mode(state) {
        PointerMode::Move => PointerMode::Scroll,
        PointerMode::Scroll => PointerMode::Move,
    };
    store_pointer_mode(state, next);
    next
}

pub fn load_movement_axis(state: &SharedState) -> (a: MovementAxis)
    ensures
        a == movement_axis_read(state.movement_axis),
{
    match MovementAxis::try_from(state.movement_axis) {
        Ok(m) => m,
        Err(_) => MovementAxis::Y,
    }
}

pub fn store_movement_axis(state: &mut SharedState, axis: MovementAxis)
    ensures
        final(state).movement_axis == axis.code(),
        final(state).main_mode == old(state).main_mode,
        final(state).pointer_mode == old(state).pointer_mode,
        final(state).current_index == old(state).current_index,
{
    state.movement_axis = u8::from(axis);
}

pub fn toggle_movement_axis(state: &mut SharedState) -> (next: MovementAxis)
    ensures
        next == movement_axis_read(old(state).movement_axis).toggled(),
        final(state).movement_axis == next.code(),
        final(state).main_mode == old(state).main_mode,
        final(state).pointer_mode == old(state).pointer_mode,
        final(state).current_index == old(state).current_index,
{
    let next = match load_movement_axis(state) {
        MovementAxis::Y => MovementAxis::X,
        MovementAxis::X => MovementAxis::Y,
    };
    store_movement_axis(state, next);
    next
}

/// Reads the three modes.
pub fn load_modes(state: &SharedState) -> (modes: Modes)
    ensures
        modes == state.modes(),
{
    Modes {
        main_mode: load_main_mode(state),
        pointer_mode: load_pointer_mode(state),
        movement_axis: load_movement_axis(state),
    }
}


/// Each mode and axis converts to its byte and back unchanged; a byte converts
/// to a mode exactly when it is 0 or 1, and then back to the same byte.
pub proof fn law_byte_round_trip(m: MainMode, p: PointerMode, a: MovementAxis, v: u8)
    ensures
        MainMode::decode(m.code()) == Ok::<MainMode, ()>(m),
        PointerMode::decode(p.code()) == Ok::<PointerMode, ()>(p),
        MovementAxis::decode(a.code()) == Ok::<MovementAxis, ()>(a),
        MainMode::decode(v) is Ok <==> v < 2,
        PointerMode::decode(v) is Ok <==> v < 2,
        MovementAxis::decode(v) is Ok <==> v < 2,
        MainMode::decode(v) matches Ok(m2) ==> m2.code() == v,
        PointerMode::decode(v) matches Ok(p2) ==> p2.code() == v,
        MovementAxis::decode(v) matches Ok(a2) ==> a2.code() == v,
{
}

/// A mode read back after it was stored is the stored mode.
pub proof fn law_load_after_store(m: MainMode, p: PointerMode, a: MovementAxis)
    ensures
        main_mode_read(m.code()) == m,
        pointer_mode_read(p.code()) == p,
        movement_axis_read(a.code()) == a,
{
}

/// A toggle always changes the mode that is read, and a second toggle
/// brings back the mode read before the first, whatever byte was stored.
pub proof fn law_toggle_twice(v: u8)
    ensures
        main_mode_read(main_mode_read(v).toggled().code()) != main_mode_read(v),
        main_mode_read(main_mode_read(main_mode_read(v).toggled().code()).toggled().code())
            == main_mode_read(v),
        pointer_mode_read(pointer_mode_read(v).toggled().code()) != pointer_mode_read(v),
        pointer_mode_read(
            pointer_mode_read(pointer_mode_read(v).toggled().code()).toggled().code(),
        ) == pointer_mode_read(v),
        movement_axis_read(movement_axis_read(v).toggled().code()) != movement_axis_read(v),
        movement_axis_read(
            movement_axis_read(movement_axis_read(v).toggled().code()).toggled().code(),
        ) == movement_axis_read(v),
{
}

} // verus!
