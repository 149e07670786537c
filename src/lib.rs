//! A text-mode console: a fixed grid of character cells driven by a byte
//! stream with a small SGR color interpreter, and a ring buffer for input.

pub mod color;
pub mod console;
pub mod interp;
pub mod stdin;
