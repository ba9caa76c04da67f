//! Input, mode and presentation logic of the mizet macro pad: a rotary encoder
//! that picks a key from a wheel of keys, four buttons used as modifiers or
//! mouse buttons, a small monochrome display and a USB HID interface.
//!
//! Everything here works on plain values; the firmware around it reads the
//! buttons, the encoder and the clock, renders the draw operations and sends
//! the HID reports.

pub mod shared;
pub mod button;
pub mod clock;
pub mod display;
pub mod encoder;
pub mod image;
pub mod input_handler;
pub mod keymap;
pub mod usb_hid;
