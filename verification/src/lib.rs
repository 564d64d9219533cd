//! Mixel: the engine of a modal pixel editor.
//!
//! A bounded grid of coloured cells is edited by keystrokes under four
//! editing modes. This crate holds the mode state machine, the per-mode key
//! bindings, the canvas with its cursor, and the command line with its
//! parser. Windowing, drawing to the screen and writing image files are the
//! caller's business: the engine hands out plain pixel buffers.

pub mod application;
pub mod canvas;
pub mod commands;
pub mod config;
pub mod cursor;
pub mod geometry;
pub mod input;
pub mod text;

pub use application::{App, Mode};
pub use commands::Command;
