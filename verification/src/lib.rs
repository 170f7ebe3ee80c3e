//! A verified core for a small 8-bit interpreted machine: 4KB of memory,
//! sixteen 8-bit registers, a 16-entry call stack, a 64x32 monochrome
//! framebuffer, a 16-key keypad and two countdown timers, driven by a
//! 35-operation instruction set.
//!
//! The host owns the clock: it loads a program image with [`Emu::load`],
//! pumps the instruction clock through [`Emu::tick`] and the slower timer
//! clock through [`Emu::tick_timers`], feeds key state in through
//! [`Emu::keypress`], and reads the framebuffer back out through
//! [`Emu::get_display`].
//!
//! Layout: [`model`] holds the ghost view of the machine state and the
//! transition each operation performs on it; [`decode`] classifies
//! instruction words; [`emu`] is the executable state store and execution
//! unit, each method specified against the model; [`font`] is the built-in
//! glyph set; [`laws`] states and proves the properties that relate several
//! operations.

pub mod decode;
pub mod emu;
pub mod font;
pub mod laws;
pub mod model;
mod rng;

pub use decode::Instr;
pub use decode::decode;
pub use emu::Emu;
pub use model::EmuError;
pub use model::EmuView;
pub use model::SCREEN_HEIGHT;
pub use model::SCREEN_WIDTH;
