//! An interpreter for the CHIP-8 virtual machine: instruction decoding,
//! machine state, the per-opcode execution engine and keypad bookkeeping,
//! with contracts proved by Verus.

pub mod cli;
pub mod decode;
pub mod execute;
pub mod keypad;
pub mod laws;
pub mod machine;

pub use cli::CliOptions;
pub use decode::{decode, Instruction};
pub use keypad::{keypad_index, KeyAction};
pub use machine::{Actions, Chip8, ExecError, KeyboardState, MachineView, Mode};
