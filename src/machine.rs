use vstd::prelude::*;

verus! {

/// Address of the first byte of the built-in hexadecimal glyphs.
pub const FONTSET_START_ADDRESS: usize = 0x50;

/// Address at which a program image is loaded and execution starts.
pub const PROGRAM_START_ADDRESS: usize = 0x200;

/// Size of the addressable memory in bytes.
pub const MEMORY_SIZE: usize = 4096;

/// The sixteen glyphs 0..F, five rows of four pixels each.
pub const FONTSET: [u8; 80] = [
    0xF0, 0x90, 0x90, 0x90, 0xF0, // 0
    0x20, 0x60, 0x20, 0x20, 0x70, // 1
    0xF0, 0x10, 0xF0, 0x80, 0xF0, // 2
    0xF0, 0x10, 0xF0, 0x10, 0xF0, // 3
    0x90, 0x90, 0xF0, 0x10, 0x10, // 4
    0xF0, 0x80, 0xF0, 0x10, 0xF0, // 5
    0xF0, 0x80, 0xF0, 0x90, 0xF0, // 6
    0xF0, 0x10, 0x20, 0x40, 0x40, // 7
    0xF0, 0x90, 0xF0, 0x90, 0xF0, // 8
    0xF0, 0x90, 0xF0, 0x10, 0xF0, // 9
    0xF0, 0x90, 0xF0, 0x90, 0x90, // A
    0xE0, 0x90, 0xE0, 0x90, 0xE0, // B
    0xF0, 0x80, 0x80, 0x80, 0xF0, // C
    0xE0, 0x90, 0x90, 0x90, 0xE0, // D
    0xF0, 0x80, 0xF0, 0x80, 0xF0, // E
    0xF0, 0x80, 0xF0, 0x80, 0x80, // F
];

/// The two instruction-set variants. `Chip8` is the original (legacy)
/// behaviour, `Chip48` the later (modern) one.
#[derive(Clone, Copy, Debug, PartialEq, Eq, Structural)]
pub enum Mode {
    Chip8,
    Chip48,
}

impl Default for Mode {
    fn default() -> (r: Self)
        ensures
            r == Mode::Chip8,
    {
        Mode::Chip8
    }
}

/// What the caller has to do after an instruction ran.
#[derive(Clone, Copy, Debug, PartialEq, Eq, Structural)]
pub enum Actions {
    NoChange,
    Redraw,
}

/// A fatal condition met while executing an instruction.
#[derive(Clone, Copy, Debug, PartialEq, Eq, Structural)]
pub enum ExecError {
    /// The instruction would touch memory beyond the last address.
    MemoryOutOfRange,
}

/// One snapshot of the keypad.
pub struct KeyboardState {
    /// Which of the sixteen keys are held down.
    pub keys_pressed: [bool; 16],
    /// The key pressed since the previous snapshot, if any.
    pub pressed_key: Option<u8>,
}

impl KeyboardState {
    /// No key held, none pressed.
    pub fn new() -> (r: Self)
        ensures
            forall|k: int| 0 <= k < 16 ==> !#[trigger] r.keys_pressed@[k],
            r.pressed_key is None,
    {
        Self { keys_pressed: [false; 16], pressed_key: None }
    }

    /// Key `k` counts as held when it is one of the sixteen and is down.
    pub open spec fn held(&self, k: u8) -> bool {
        k < 16 && self.keys_pressed@[k as int]
    }
}

/// The whole state of the virtual machine.
pub struct Chip8 {
    pub memory: [u8; 4096],
    pub registers: [u8; 16],
    pub index_register: u16,
    pub program_counter: usize,
    pub stack: [usize; 16],
    pub stack_pointer: i8,
    pub delay_timer: u8,
    pub sound_timer: u8,
    pub display: [[u8; 64]; 32],
    pub mode: Mode,
}

/// The machine as mathematical values.
pub struct MachineView {
    pub memory: Seq<u8>,
    pub registers: Seq<u8>,
    pub index_register: u16,
    pub program_counter: int,
    pub stack: Seq<usize>,
    pub stack_pointer: int,
    pub delay_timer: u8,
    pub sound_timer: u8,
    pub display: Seq<Seq<u8>>,
    pub mode: Mode,
}

impl View for Chip8 {
    type V = MachineView;

    open spec fn view(&self) -> MachineView {
        MachineView {
            memory: self.memory@,
            registers: self.registers@,
            index_register: self.index_register,
            program_counter: self.program_counter as int,
            stack: self.stack@,
            stack_pointer: self.stack_pointer as int,
            delay_timer: self.delay_timer,
            sound_timer: self.sound_timer,
            display: self.display@.map_values(|row: [u8; 64]| row@),
            mode: self.mode,
        }
    }
}

/// A display with every pixel off.
pub open spec fn blank_display() -> Seq<Seq<u8>> {
    Seq::new(32, |r: int| Seq::new(64, |c: int| 0u8))
}

impl MachineView {
    /// The sequences have the machine's sizes, and the stack cursor is -1
    /// (empty) or indexes one of the sixteen slots.
    pub open spec fn wf(&self) -> bool {
        &&& self.memory.len() == 4096
        &&& self.registers.len() == 16
        &&& self.stack.len() == 16
        &&& self.display.len() == 32
        &&& forall|r: int| 0 <= r < 32 ==> (#[trigger] self.display[r]).len() == 64
        &&& -1 <= self.stack_pointer <= 15
    }

    /// A state in which an instruction can run: a well-formed stack, and a
    /// counter that has moved past the instruction (so it is at least 2) and
    /// is within 16 bits.
    pub open spec fn runnable(&self) -> bool {
        self.wf() && 2 <= self.program_counter <= 0xFFFF
    }

    /// The memory holds the built-in glyphs at their fixed place.
    pub open spec fn has_fontset(&self) -> bool {
        forall|i: int|
            0 <= i < 80 ==> #[trigger] self.memory[FONTSET_START_ADDRESS + i] == FONTSET@[i]
    }
}

impl Chip8 {
    /// A fresh machine of the given variant: glyphs in place, everything
    /// else zero, the counter at the program start and the stack empty.
    pub fn new(mode: Mode) -> (r: Self)
        ensures
            r@.wf(),
            r@.has_fontset(),
            forall|a: int|
                0 <= a < 4096 && !(FONTSET_START_ADDRESS <= a < FONTSET_START_ADDRESS + 80)
                    ==> #[trigger] r.memory@[a] == 0,
            forall|i: int| 0 <= i < 16 ==> #[trigger] r.registers@[i] == 0,
            forall|i: int| 0 <= i < 16 ==> #[trigger] r.stack@[i] == 0,
            r.index_register == 0,
            r.program_counter == PROGRAM_START_ADDRESS,
            r.stack_pointer == -1,
            r.delay_timer == 0,
            r.sound_timer == 0,
            r@.display == blank_display(),
            r.mode == mode,
    {
        let mut machine = Self {
            memory: [0; 4096],
            registers: [0; 16],
            index_register: 0,
            program_counter: PROGRAM_START_ADDRESS,
            stack: [0; 16],
            stack_pointer: -1,
            delay_timer: 0,
            sound_timer: 0,
            display: [[0; 64]; 32],
            mode,
        };
        let fontset = FONTSET;
        let mut i: usize = 0;
        while i < 80
            invariant
                i <= 80,
                fontset == FONTSET,
                forall|k: int| 0 <= k < i ==> #[trigger] machine.memory@[FONTSET_START_ADDRESS + k] == FONTSET@[k],
                forall|a: int|
                    0 <= a < 4096 && !(FONTSET_START_ADDRESS <= a < FONTSET_START_ADDRESS + i)
                        ==> #[trigger] machine.memory@[a] == 0,
                forall|k: int| 0 <= k < 16 ==> #[trigger] machine.registers@[k] == 0,
                forall|k: int| 0 <= k < 16 ==> #[trigger] machine.stack@[k] == 0,
                forall|r: int, c: int| 0 <= r < 32 && 0 <= c < 64 ==> #[trigger] machine.display@[r]@[c] == 0,
                machine.index_register == 0,
                machine.program_counter == PROGRAM_START_ADDRESS,
                machine.stack_pointer == -1,
                machine.delay_timer == 0,
                machine.sound_timer == 0,
                machine.mode == mode,
            decreases 80 - i,
        {
            machine.memory[FONTSET_START_ADDRESS + i] = fontset[i];
            i += 1;
        }
        assert(machine@.display =~~= blank_display());
        machine
    }

    /// Copies `program` into memory from the program start on; every other
    /// byte stays as it was.
    pub fn load(&mut self, program: &[u8])
        requires
            program@.len() <= MEMORY_SIZE - PROGRAM_START_ADDRESS,
        ensures
            final(self)@ == (MachineView { memory: final(self)@.memory, ..old(self)@ }),
            final(self).memory@.len() == 4096,
            forall|a: int|
                0 <= a < 4096 ==> #[trigger] final(self).memory@[a] == if PROGRAM_START_ADDRESS <= a
                    < PROGRAM_START_ADDRESS + program@.len() {
                    program@[a - PROGRAM_START_ADDRESS]
                } else {
                    old(self).memory@[a]
                },
    {
        let mut i: usize = 0;
        while i < program.len()
            invariant
                i <= program@.len() <= MEMORY_SIZE - PROGRAM_START_ADDRESS,
                self@ == (MachineView { memory: self@.memory, ..old(self)@ }),
                forall|a: int|
                    0 <= a < 4096 ==> #[trigger] self.memory@[a] == if PROGRAM_START_ADDRESS <= a
                        < PROGRAM_START_ADDRESS + i {
                        program@[a - PROGRAM_START_ADDRESS]
                    } else {
                        old(self).memory@[a]
                    },
            decreases program@.len() - i,
        {
            self.memory[PROGRAM_START_ADDRESS + i] = program[i];
            i += 1;
        }
    }
    /// The opcode stored big-endian at the program counter.
    pub open spec fn opcode_at(v: MachineView) -> u16 {
        (v.memory[v.program_counter] as int * 256 + v.memory[v.program_counter + 1] as int) as u16
    }

    /// The state after a fetch: the counter moved past the opcode.
    pub open spec fn fetched(v: MachineView) -> MachineView {
        MachineView { program_counter: v.program_counter + 2, ..v }
    }

    /// Reads the opcode at the program counter and advances the counter by 2.
    pub fn fetch(&mut self) -> (r: u16)
        requires
            old(self).program_counter + 1 < MEMORY_SIZE,
        ensures
            r == Self::opcode_at(old(self)@),
            final(self)@ == Self::fetched(old(self)@),
    {
        let pc = self.program_counter;
        let byte1 = self.memory[pc] as u16;
        let byte2 = self.memory[pc + 1] as u16;
        self.program_counter += 2;
        assert((byte1 << 8u16 | byte2) as int == byte1 as int * 256 + byte2 as int) by (bit_vector)
            requires
                byte1 < 256,
                byte2 < 256,
        ;
        byte1 << 8 | byte2
    }

    /// One 60 Hz tick: each timer that is not zero goes down by one.
    pub fn tick_timers(&mut self)
        ensures
            final(self)@ == (MachineView {
                delay_timer: if old(self).delay_timer > 0 { (old(self).delay_timer - 1) as u8 } else { 0 },
                sound_timer: if old(self).sound_timer > 0 { (old(self).sound_timer - 1) as u8 } else { 0 },
                ..old(self)@
            }),
    {
        if self.delay_timer > 0 {
            self.delay_timer -= 1;
        }
        if self.sound_timer > 0 {
            self.sound_timer -= 1;
        }
    }
}

} // verus!
