//! ANSI colour sequences of the interface.
use vstd::prelude::*;

verus! {

/// Rust orange.
pub const PRIMARY: &'static str = "\x1b[38;2;206;66;43m";
/// Rust brown.
pub const SECONDARY: &'static str = "\x1b[38;2;140;48;36m";
/// Iron grey.
pub const ACCENT: &'static str = "\x1b[38;2;45;45;45m";
/// Success green.
pub const SUCCESS: &'static str = "\x1b[38;2;40;167;69m";
/// Warning yellow.
pub const WARNING: &'static str = "\x1b[38;2;255;193;7m";
/// Error red.
pub const ERROR: &'static str = "\x1b[38;2;220;53;69m";
/// Reset.
pub const RESET: &'static str = "\x1b[0m";
/// Bold.
pub const BOLD: &'static str = "\x1b[1m";
/// Dim.
pub const DIM: &'static str = "\x1b[2m";

} // verus!
