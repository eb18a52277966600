use vstd::prelude::*;

use crate::machine::Mode;

verus! {

/// The emulator's run options.
pub struct CliOptions {
    /// Path of the program to run.
    pub program: String,
    /// The instruction-set variant to run in.
    pub mode: Mode,
    /// Instructions to run per second.
    pub speed: u64,
    /// Whether to show the machine's registers beside the display.
    pub debug: bool,
}

} // verus!
