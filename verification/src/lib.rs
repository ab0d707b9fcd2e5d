//! An interpreter for the CHIP-8 virtual machine, verified with Verus.
//!
//! [`Chip8`] holds one machine. A host loads a program image with
//! [`Chip8::load_game`], calls [`Chip8::emulate_cycle`] once per cycle,
//! hands in the keypad with [`Chip8::set_keys`] and paints the screen
//! whenever [`Chip8::draw_flag`] reports a change. Every method's contract
//! is stated over [`machine::Machine`], the machine as a mathematical
//! value; [`sprite`] and [`laws`] hold what is proved of that model.
//!
//! The modules [`config`], [`frame`], [`keypad`] and [`palette`] hold what
//! a host decides between two cycles: the command line, the place of the
//! picture in a window, the keys, and the colours.

pub mod config;
pub mod cpu;
pub mod cycle;
pub mod fault;
pub mod font;
pub mod frame;
pub mod instruction;
pub mod keypad;
pub mod laws;
pub mod machine;
pub mod palette;
mod random;
pub mod sprite;

pub use config::Config;
pub use cpu::Chip8;
pub use fault::{Fault, LoadError};
pub use instruction::{decode, Instruction};
pub use palette::Palette;
