//! The wheel of keys that the encoder scrolls through, with the HID usage
//! code of each key and the legends the display shows for it.

use vstd::prelude::*;

verus! {

/// The legends and the HID keyboard usage code of one key of the wheel.
#[derive(Clone, Copy, PartialEq, Eq, Debug)]
pub struct KeyInfo {
    /// The HID keyboard usage code that the key sends.
    pub keycode: u8,
    pub key: &'static str,
    pub shifted_key: &'static str,
    pub middle_key: Option<&'static str>,
}

/// The number of keys on the wheel.
pub const KEY_LENGTH: usize = 62;

/// The index after `current_index` on the wheel, wrapping from the last key to the first.
pub open spec fn next_index(current_index: int) -> int {
    if current_index == KEY_LENGTH - 1 {
        0
    } else {
        current_index + 1
    }
}

/// The index before `current_index` on the wheel, wrapping from the first key to the last.
pub open spec fn prev_index(current_index: int) -> int {
    if current_index == 0 {
        KEY_LENGTH - 1
    } else {
        current_index - 1
    }
}

pub fn get_next_idx(current_index: usize) -> (next: usize)
    requires
        current_index < KEY_LENGTH,
    ensures
        next == next_index(current_index as int),
        next < KEY_LENGTH,
        next == (current_index + 1) % (KEY_LENGTH as int),
{
    if current_index == KEY_LENGTH - 1 {
        0
    } else {
        current_index + 1
    }
}

pub fn get_prev_idx(current_index: usize) -> (prev: usize)
    requires
        current_index < KEY_LENGTH,
    ensures
        prev == prev_index(current_index as int),
        prev < KEY_LENGTH,
        prev == (current_index + KEY_LENGTH - 1) % (KEY_LENGTH as int),
{
    if current_index == 0 {
        KEY_LENGTH - 1
    } else {
        current_index - 1
    }
}

/// Stepping forward and then back on the wheel, or back and then forward,
/// returns to the same key.
pub proof fn law_next_prev_inverse(i: int)
    requires
        0 <= i < KEY_LENGTH,
    ensures
        prev_index(next_index(i)) == i,
        next_index(prev_index(i)) == i,
        0 <= next_index(i) < KEY_LENGTH,
        0 <= prev_index(i) < KEY_LENGTH,
{
}

/// The key at position `index` of the wheel (any index past the end reads as the last key).
pub open spec fn keymap(index: usize) -> KeyInfo {
    match index {
        0 => KeyInfo { keycode: 0x04, shifted_key: "A", key: "a", middle_key: None },
        1 => KeyInfo { keycode: 0x05, shifted_key: "B", key: "b", middle_key: None },
        2 => KeyInfo { keycode: 0x06, shifted_key: "C", key: "c", middle_key: None },
        3 => KeyInfo { keycode: 0x07, shifted_key: "D", key: "d", middle_key: None },
        4 => KeyInfo { keycode: 0x08, shifted_key: "E", key: "e", middle_key: None },
        5 => KeyInfo { keycode: 0x09, shifted_key: "F", key: "f", middle_key: None },
        6 => KeyInfo { keycode: 0x0A, shifted_key: "G", key: "g", middle_key: None },
        7 => KeyInfo { keycode: 0x0B, shifted_key: "H", key: "h", middle_key: None },
        8 => KeyInfo { keycode: 0x0C, shifted_key: "I", key: "i", middle_key: None },
        9 => KeyInfo { keycode: 0x0D, shifted_key: "J", key: "j", middle_key: None },
        10 => KeyInfo { keycode: 0x0E, shifted_key: "K", key: "k", middle_key: None },
        11 => KeyInfo { keycode: 0x0F, shifted_key: "L", key: "l", middle_key: None },
        12 => KeyInfo { keycode: 0x10, shifted_key: "M", key: "m", middle_key: None },
        13 => KeyInfo { keycode: 0x11, shifted_key: "N", key: "n", middle_key: None },
        14 => KeyInfo { keycode: 0x12, shifted_key: "O", key: "o", middle_key: None },
        15 => KeyInfo { keycode: 0x13, shifted_key: "P", key: "p", middle_key: None },
        16 => KeyInfo { keycode: 0x14, shifted_key: "Q", key: "q", middle_key: None },
        17 => KeyInfo { keycode: 0x15, shifted_key: "R", key: "r", middle_key: None },
        18 => KeyInfo { keycode: 0x16, shifted_key: "S", key: "s", middle_key: None },
        19 => KeyInfo { keycode: 0x17, shifted_key: "T", key: "t", middle_key: None },
        20 => KeyInfo { keycode: 0x18, shifted_key: "U", key: "u", middle_key: None },
        21 => KeyInfo { keycode: 0x19, shifted_key: "V", key: "v", middle_key: None },
        22 => KeyInfo { keycode: 0x1A, shifted_key: "W", key: "w", middle_key: None },
        23 => KeyInfo { keycode: 0x1B, shifted_key: "X", key: "x", middle_key: None },
        24 => KeyInfo { keycode: 0x1C, shifted_key: "Y", key: "y", middle_key: None },
        25 => KeyInfo { keycode: 0x1D, shifted_key: "Z", key: "z", middle_key: None },
        26 => KeyInfo { keycode: 0x1E, shifted_key: "!", key: "1", middle_key: None },
        27 => KeyInfo { keycode: 0x1F, shifted_key: "@", key: "2", middle_key: None },
        28 => KeyInfo { keycode: 0x20, shifted_key: "#", key: "3", middle_key: None },
        29 => KeyInfo { keycode: 0x21, shifted_key: "$", key: "4", middle_key: None },
        30 => KeyInfo { keycode: 0x22, shifted_key: "%", key: "5", middle_key: None },
        31 => KeyInfo { keycode: 0x23, shifted_key: "^", key: "6", middle_key: None },
        32 => KeyInfo { keycode: 0x24, shifted_key: "&", key: "7", middle_key: None },
        33 => KeyInfo { keycode: 0x25, shifted_key: "*", key: "8", middle_key: None },
        34 => KeyInfo { keycode: 0x26, shifted_key: "(", key: "9", middle_key: None },
        35 => KeyInfo { keycode: 0x27, shifted_key: ")", key: "0", middle_key: None },
        36 => KeyInfo { keycode: 0x28, shifted_key: "R", key: "T", middle_key: Some("E") },
        37 => KeyInfo { keycode: 0x29, shifted_key: "E", key: "C", middle_key: Some("S") },
        38 => KeyInfo { keycode: 0x2A, shifted_key: "B", key: "P", middle_key: Some("S") },
        39 => KeyInfo { keycode: 0x2B, shifted_key: "T", key: "B", middle_key: Some("A") },
        40 => KeyInfo { keycode: 0x2C, shifted_key: "S", key: "C", middle_key: Some("P") },
        41 => KeyInfo { keycode: 0x2D, shifted_key: "_", key: "-", middle_key: None },
        42 => KeyInfo { keycode: 0x2E, shifted_key: "+", key: "=", middle_key: None },
        43 => KeyInfo { keycode: 0x2F, shifted_key: "{", key: "[", middle_key: None },
        44 => KeyInfo { keycode: 0x30, shifted_key: "}", key: "]", middle_key: None },
        45 => KeyInfo { keycode: 0x31, shifted_key: "|", key: "\\", middle_key: None },
        46 => KeyInfo { keycode: 0x33, shifted_key: ":", key: ";", middle_key: None },
        47 => KeyInfo { keycode: 0x34, shifted_key: "\"", key: "\'", middle_key: None },
        48 => KeyInfo { keycode: 0x35, shifted_key: "~", key: "`", middle_key: None },
        49 => KeyInfo { keycode: 0x36, shifted_key: "<", key: ",", middle_key: None },
        50 => KeyInfo { keycode: 0x37, shifted_key: ">", key: ".", middle_key: None },
        51 => KeyInfo { keycode: 0x38, shifted_key: "?", key: "/", middle_key: None },
        52 => KeyInfo { keycode: 0x3A, shifted_key: "F", key: "1", middle_key: None },
        53 => KeyInfo { keycode: 0x3B, shifted_key: "F", key: "2", middle_key: None },
        54 => KeyInfo { keycode: 0x3C, shifted_key: "F", key: "3", middle_key: None },
        55 => KeyInfo { keycode: 0x3D, shifted_key: "F", key: "4", middle_key: None },
        56 => KeyInfo { keycode: 0x3E, shifted_key: "F", key: "5", middle_key: None },
        57 => KeyInfo { keycode: 0x3F, shifted_key: "F", key: "6", middle_key: None },
        58 => KeyInfo { keycode: 0x40, shifted_key: "F", key: "7", middle_key: None },
        59 => KeyInfo { keycode: 0x41, shifted_key: "F", key: "8", middle_key: None },
        60 => KeyInfo { keycode: 0x42, shifted_key: "F", key: "9", middle_key: None },
        _ => KeyInfo { keycode: 0x43, shifted_key: "F", key: "0", middle_key: None },
    }
}

/// The key at position `index` of the wheel.
pub fn key_info(index: usize) -> (k: KeyInfo)
    requires
        index < KEY_LENGTH,
    ensures
        k == keymap(index),
{
    match index {
        0 => KeyInfo { keycode: 0x04, shifted_key: "A", key: "a", middle_key: None },
        1 => KeyInfo { keycode: 0x05, shifted_key: "B", key: "b", middle_key: None },
        2 => KeyInfo { keycode: 0x06, shifted_key: "C", key: "c", middle_key: None },
        3 => KeyInfo { keycode: 0x07, shifted_key: "D", key: "d", middle_key: None },
        4 => KeyInfo { keycode: 0x08, shifted_key: "E", key: "e", middle_key: None },
        5 => KeyInfo { keycode: 0x09, shifted_key: "F", key: "f", middle_key: None },
        6 => KeyInfo { keycode: 0x0A, shifted_key: "G", key: "g", middle_key: None },
        7 => KeyInfo { keycode: 0x0B, shifted_key: "H", key: "h", middle_key: None },
        8 => KeyInfo { keycode: 0x0C, shifted_key: "I", key: "i", middle_key: None },
        9 => KeyInfo { keycode: 0x0D, shifted_key: "J", key: "j", middle_key: None },
        10 => KeyInfo { keycode: 0x0E, shifted_key: "K", key: "k", middle_key: None },
        11 => KeyInfo { keycode: 0x0F, shifted_key: "L", key: "l", middle_key: None },
        12 => KeyInfo { keycode: 0x10, shifted_key: "M", key: "m", middle_key: None },
        13 => KeyInfo { keycode: 0x11, shifted_key: "N", key: "n", middle_key: None },
        14 => KeyInfo { keycode: 0x12, shifted_key: "O", key: "o", middle_key: None },
        15 => KeyInfo { keycode: 0x13, shifted_key: "P", key: "p", middle_key: None },
        16 => KeyInfo { keycode: 0x14, shifted_key: "Q", key: "q", middle_key: None },
        17 => KeyInfo { keycode: 0x15, shifted_key: "R", key: "r", middle_key: None },
        18 => KeyInfo { keycode: 0x16, shifted_key: "S", key: "s", middle_key: None },
        19 => KeyInfo { keycode: 0x17, shifted_key: "T", key: "t", middle_key: None },
        20 => KeyInfo { keycode: 0x18, shifted_key: "U", key: "u", middle_key: None },
        21 => KeyInfo { keycode: 0x19, shifted_key: "V", key: "v", middle_key: None },
        22 => KeyInfo { keycode: 0x1A, shifted_key: "W", key: "w", middle_key: None },
        23 => KeyInfo { keycode: 0x1B, shifted_key: "X", key: "x", middle_key: None },
        24 => KeyInfo { keycode: 0x1C, shifted_key: "Y", key: "y", middle_key: None },
        25 => KeyInfo { keycode: 0x1D, shifted_key: "Z", key: "z", middle_key: None },
        26 => KeyInfo { keycode: 0x1E, shifted_key: "!", key: "1", middle_key: None },
        27 => KeyInfo { keycode: 0x1F, shifted_key: "@", key: "2", middle_key: None },
        28 => KeyInfo { keycode: 0x20, shifted_key: "#", key: "3", middle_key: None },
        29 => KeyInfo { keycode: 0x21, shifted_key: "$", key: "4", middle_key: None },
        30 => KeyInfo { keycode: 0x22, shifted_key: "%", key: "5", middle_key: None },
        31 => KeyInfo { keycode: 0x23, shifted_key: "^", key: "6", middle_key: None },
        32 => KeyInfo { keycode: 0x24, shifted_key: "&", key: "7", middle_key: None },
        33 => KeyInfo { keycode: 0x25, shifted_key: "*", key: "8", middle_key: None },
        34 => KeyInfo { keycode: 0x26, shifted_key: "(", key: "9", middle_key: None },
        35 => KeyInfo { keycode: 0x27, shifted_key: ")", key: "0", middle_key: None },
        36 => KeyInfo { keycode: 0x28, shifted_key: "R", key: "T", middle_key: Some("E") },
        37 => KeyInfo { keycode: 0x29, shifted_key: "E", key: "C", middle_key: Some("S") },
        38 => KeyInfo { keycode: 0x2A, shifted_key: "B", key: "P", middle_key: Some("S") },
        39 => KeyInfo { keycode: 0x2B, shifted_key: "T", key: "B", middle_key: Some("A") },
        40 => KeyInfo { keycode: 0x2C, shifted_key: "S", key: "C", middle_key: Some("P") },
        41 => KeyInfo { keycode: 0x2D, shifted_key: "_", key: "-", middle_key: None },
        42 => KeyInfo { keycode: 0x2E, shifted_key: "+", key: "=", middle_key: None },
        43 => KeyInfo { keycode: 0x2F, shifted_key: "{", key: "[", middle_key: None },
        44 => KeyInfo { keycode: 0x30, shifted_key: "}", key: "]", middle_key: None },
        45 => KeyInfo { keycode: 0x31, shifted_key: "|", key: "\\", middle_key: None },
        46 => KeyInfo { keycode: 0x33, shifted_key: ":", key: ";", middle_key: None },
        47 => KeyInfo { keycode: 0x34, shifted_key: "\"", key: "\'", middle_key: None },
        48 => KeyInfo { keycode: 0x35, shifted_key: "~", key: "`", middle_key: None },
        49 => KeyInfo { keycode: 0x36, shifted_key: "<", key: ",", middle_key: None },
        50 => KeyInfo { keycode: 0x37, shifted_key: ">", key: ".", middle_key: None },
        51 => KeyInfo { keycode: 0x38, shifted_key: "?", key: "/", middle_key: None },
        52 => KeyInfo { keycode: 0x3A, shifted_key: "F", key: "1", middle_key: None },
        53 => KeyInfo { keycode: 0x3B, shifted_key: "F", key: "2", middle_key: None },
        54 => KeyInfo { keycode: 0x3C, shifted_key: "F", key: "3", middle_key: None },
        55 => KeyInfo { keycode: 0x3D, shifted_key: "F", key: "4", middle_key: None },
        56 => KeyInfo { keycode: 0x3E, shifted_key: "F", key: "5", middle_key: None },
        57 => KeyInfo { keycode: 0x3F, shifted_key: "F", key: "6", middle_key: None },
        58 => KeyInfo { keycode: 0x40, shifted_key: "F", key: "7", middle_key: None },
        59 => KeyInfo { keycode: 0x41, shifted_key: "F", key: "8", middle_key: None },
        60 => KeyInfo { keycode: 0x42, shifted_key: "F", key: "9", middle_key: None },
        _ => KeyInfo { keycode: 0x43, shifted_key: "F", key: "0", middle_key: None },
    }
}

} // verus!
