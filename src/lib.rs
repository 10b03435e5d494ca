//! Drivers that show text on a 5x5 LED matrix.
//!
//! The main one, [`driver::LedMatrixText`], scrolls a text through the
//! matrix one character at a time. It is a single-writer state machine:
//! client actions (print, enable, disable, clear), timer expiries and
//! deferred callbacks are methods that update the driver's state and report
//! what the surrounding system must do next (arm the timer, deliver a
//! notification). [`digit_letter::DigitLetterDisplay`] shows one requested
//! character, and [`text_display::TextDisplay`] shows a process's text once.
use vstd::prelude::*;

pub mod error;
pub mod glyph;
pub mod matrix;
pub mod scroll;
pub mod driver;
pub mod digit_letter;
pub mod text_display;
