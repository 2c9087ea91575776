# spoolbuddy

Verified core of the SpoolBuddy spool station: an ESP32-S3 device with an
800x480 RGB565 touch display, a PN5180 NFC reader and a NAU7802 scale, the
SpoolStation server that connects the device to its web UI, and a desktop
simulator of the device UI.

- `src/` — the library, written and proved with Verus. Every public function
  states its result in `ensures`; the `lemma_*` proof functions state the
  properties that tie the functions together (navigation history, BMP
  layout, colour conversions, device sessions, SQL placeholders, ...).
- `tests/` — tests of the library on concrete values.
- `app/` — the SpoolStation server program (axum, sqlx, tokio): HTTP,
  WebSocket and database work around the library's decisions.

What is not here, and why: the firmware's LVGL screens and widgets, its
ESP-IDF bring-up (display panel, WiFi connection, on-device HTTP server)
and the simulator's SDL2 window and render loop. They consist of calls into
`lvgl_sys`, ESP-IDF, SDL2 and the `spoolbuddy_ui` rendering crate, which
cannot be built on a host (and whose source is not part of this project).
The decisions inside them (layout positions, colours,
navigation, touch handling, I2C scanning, key bindings, snapshot encoding)
are functions of the library.

Weights exchanged with the device are carried by the library as the bit
pattern of the `f64` gram value; the server only stores and forwards them.
