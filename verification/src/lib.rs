//! A text console driver for a bare-metal machine: a fixed grid of character
//! cells behind volatile memory, a cursor that wraps at the right edge, and a
//! scroll that evicts the top row once the grid is full.

pub mod laws;
pub mod print_util;
pub mod screen;
