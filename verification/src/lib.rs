//! Verified core of a keyboard-and-mouse to touch mapper for scrcpy.
//!
//! The library holds the rules: which touch goes down for which key, what bytes
//! travel to the device, how settings and profiles are edited. It performs no I/O
//! and never looks at a clock; readings of both are passed in as plain values.
//! Screen geometry enters as resolved pixels (see [`layout`]), so the profile types
//! are generic in the number type that coordinates are stored in.

pub mod adb;
pub mod aim;
pub mod args;
pub mod buttons;
pub mod capture;
pub mod clock;
pub mod control;
pub mod editor;
pub mod engine;
pub mod filedialog;
pub mod fingers;
pub mod handover;
pub mod help;
pub mod history;
pub mod journal;
pub mod keycodes;
pub mod keymap;
pub mod laws;
pub mod layout;
pub mod overlay;
pub mod panel;
pub mod picture;
pub mod promises;
pub mod reconcile;
pub mod selftest;
pub mod session;
pub mod settings;
pub mod space;
pub mod suite;
pub mod text;
pub mod theme;
pub mod turning;
