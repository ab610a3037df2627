//! Leveled diagnostics: each level maps to the fixed foreground/background
//! color pair its messages are written in.

use vstd::prelude::*;

use crate::vga::{color_bits, Color, VGAColor};

verus! {

#[derive(Clone, Copy, Debug, PartialEq, Eq)]
pub enum LogLevel {
    Debug,
    Info,
    Error,
    Panic,
}

/// The attribute byte of each level: yellow, light gray and light red on
/// black, and white on red for panics.
pub open spec fn level_color(l: LogLevel) -> VGAColor {
    match l {
        LogLevel::Debug => VGAColor(
            (color_bits(Color::Black) << 4) | color_bits(Color::Yellow),
        ),
        LogLevel::Info => VGAColor(
            (color_bits(Color::Black) << 4) | color_bits(Color::LightGray),
        ),
        LogLevel::Error => VGAColor(
            (color_bits(Color::Black) << 4) | color_bits(Color::LightRed),
        ),
        LogLevel::Panic => VGAColor((color_bits(Color::Red) << 4) | color_bits(Color::White)),
    }
}

impl LogLevel {
    /// The color pair messages of this level are written in.
    pub fn get_level(&self) -> (r: VGAColor)
        ensures
            r == level_color(*self),
    {
        match self {
            LogLevel::Debug => VGAColor::new(Color::Yellow, Color::Black),
            LogLevel::Info => VGAColor::new(Color::LightGray, Color::Black),
            LogLevel::Error => VGAColor::new(Color::LightRed, Color::Black),
            LogLevel::Panic => VGAColor::new(Color::White, Color::Red),
        }
    }
}

} // verus!
