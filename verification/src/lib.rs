//! A CHIP-8 virtual machine whose instruction semantics are proved against a
//! mathematical model of the machine state.
//!
//! The executable machine is [`CPU`]. Its view is the ghost [`Machine`], and
//! every instruction handler states its effect as a function on that model.
//! The host owns the clock, the keypad, the screen and the speaker: it hands
//! the machine timestamps and key states as plain values and acts on what
//! the machine reports.

pub mod cpu;
pub mod display;
pub mod error;
pub mod font;
pub mod instructions;
pub mod interpreter;
pub mod keypad;
pub mod laws;
pub mod machine;
pub mod random;
pub mod timer;

pub use cpu::CPU;
pub use error::{Chip8Error, Fault};
pub use font::FONT;
pub use interpreter::{Action, StepOutcome};
pub use machine::Machine;
