//! A CHIP-8 interpreter whose behaviour is stated as a mathematical state
//! machine and proved of the executable code.
//!
//! * [`machine`] holds the state machine: the state as plain values, what
//!   each instruction does to it, and when an instruction cannot be carried
//!   out.
//! * [`instruction`] holds the instruction set and the decoder.
//! * [`display`] says what drawing a sprite does to the pixel grid.
//! * [`interpreter`] holds [`Chip8`], the executable machine; each of its
//!   methods is proved to follow the state machine.
//! * [`theorems`] holds what follows: the arithmetic of the flag register,
//!   drawing twice, waiting for a key, and more.
//! * [`keypad`] and [`render`] help a front end: from keyboard keys to
//!   keypad indices, and from the display to squares on a window.

pub mod display;
mod entropy;
pub mod font;
pub mod instruction;
pub mod interpreter;
pub mod keypad;
pub mod machine;
pub mod render;
pub mod theorems;

pub use display::{SCREEN_HEIGHT, SCREEN_WIDTH};
pub use instruction::Instruction;
pub use interpreter::Chip8;
pub use machine::{Fault, Machine};
