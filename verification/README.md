# mizet_fw

The logic of the mizet macro pad firmware (RP2040, rotary encoder, four
buttons, 128x32 SSD1306 display, USB HID keyboard and mouse), verified with
Verus.

- `src/` — the verified library:
  - `shared` — events, the three modes, their byte encoding and the shared state
    (load, store and toggle of each mode);
  - `keymap` — the wheel of 62 keys, their HID usage codes and legends;
  - `button` — debouncing; `encoder` — what a detent does to the selection;
  - `input_handler` — mode switching (tap on D, encoder button in mouse mode);
  - `usb_hid` — modifier and mouse button bits, reports, the speed-dependent
    pointer step, and what each event makes the pad send;
  - `display` — the display state and the drawing operations of every screen
    and animation; `image` — the logo scaling and the arrow images;
  - `clock` — elapsed time between clock readings.
- `app/` — the firmware tasks around the library (hardware, channels, clock,
  rendering with embedded-graphics, USB with embassy-usb).
- `tests/` — tests of the library.
