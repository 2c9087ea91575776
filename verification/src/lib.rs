//! SpoolBuddy: verified core of the spool station, an ESP32-S3 device with
//! an 800x480 touch display, an NFC reader and a scale, of its companion
//! server, and of its desktop simulator.
//!
//! Device: NFC reader state (`nfc`), WiFi credentials (`wifi_init`), the
//! screenshot endpoint (`http_screenshot`), panel framebuffer and colours
//! (`display`), touch input (`touch`), board bring-up (`board`), screen
//! navigation (`navigation`, `settings_tabs`) and widget layout
//! (`ui_layout`).
//!
//! Server: API errors (`api`), the connected device (`device`) and the
//! spool list query (`spools`).
//!
//! Simulator: display snapshots (PNG in headless mode) and keyboard
//! controls (`simulator`).
//!
//! Shared: BMP and PNG encoding (`bmp`, `png`) and text comparison (`text`).
//!
//! Not part of this crate: the device's LVGL widget tree (screens, status
//! bar, AMS unit panels, settings and calibration screens), the ESP-IDF
//! bring-up (panel initialisation, WiFi connection, the device HTTP server)
//! and the simulator's SDL window and render loop. They are calls into
//! `lvgl_sys`, ESP-IDF, SDL2 and the `spoolbuddy_ui` rendering crate, none of
//! which can be built for a host library; their layout, colour, navigation
//! and input decisions are the functions of `ui_layout`, `settings_tabs`,
//! `navigation`, `touch`, `board` and `simulator`.

pub mod nfc;
pub mod wifi_init;
pub mod http_screenshot;
pub mod display;
pub mod touch;
pub mod board;
pub mod navigation;
pub mod settings_tabs;
pub mod ui_layout;

pub mod api;
pub mod device;
pub mod spools;

pub mod simulator;

pub mod bmp;
pub mod png;
pub mod text;
