use vstd::prelude::*;

use crate::decode::Instruction;
use crate::machine::{
    blank_display, Actions, Chip8, ExecError, KeyboardState, MachineView, Mode,
    FONTSET_START_ADDRESS,
};

verus! {

/// `v` with register `i` set to `b`.
pub open spec fn set_reg(v: MachineView, i: int, b: u8) -> MachineView {
    MachineView { registers: v.registers.update(i, b), ..v }
}

/// `v` with the next instruction skipped when `cond` holds.
pub open spec fn skip_if(v: MachineView, cond: bool) -> MachineView {
    if cond {
        MachineView { program_counter: v.program_counter + 2, ..v }
    } else {
        v
    }
}

/// The legacy variant clears the flag register after a logical operation.
pub open spec fn logic_flag(v: MachineView) -> MachineView {
    if v.mode == Mode::Chip8 {
        set_reg(v, 15, 0)
    } else {
        v
    }
}

/// The operand of a shift: Vy in the legacy variant, Vx in the modern one.
pub open spec fn shift_source(v: MachineView, op: Instruction) -> u8 {
    if v.mode == Mode::Chip8 {
        v.registers[op.y as int]
    } else {
        v.registers[op.x as int]
    }
}

/// Sets Vx to `b`, then the flag register to `flag`.
pub open spec fn set_with_flag(v: MachineView, x: int, b: u8, flag: u8) -> MachineView {
    set_reg(set_reg(v, x, b), 15, flag)
}

/// The register operations of class 0x8, keyed by `n`.
#[verifier::opaque]
pub open spec fn step_alu(v: MachineView, op: Instruction) -> MachineView {
    let x = op.x as int;
    let vx = v.registers[x];
    let vy = v.registers[op.y as int];
    if op.n == 0 {
        set_reg(v, x, vy)
    } else if op.n == 1 {
        logic_flag(set_reg(v, x, vx | vy))
    } else if op.n == 2 {
        logic_flag(set_reg(v, x, vx & vy))
    } else if op.n == 3 {
        logic_flag(set_reg(v, x, vx ^ vy))
    } else if op.n == 4 {
        set_with_flag(v, x, ((vx + vy) % 256) as u8, if vx + vy > 255 { 1 } else { 0 })
    } else if op.n == 5 {
        set_with_flag(v, x, ((vx - vy + 256) % 256) as u8, if vx >= vy { 1 } else { 0 })
    } else if op.n == 6 {
        let s = shift_source(v, op);
        set_with_flag(v, x, s / 2, s % 2)
    } else if op.n == 7 {
        set_with_flag(v, x, ((vy - vx + 256) % 256) as u8, if vy >= vx { 1 } else { 0 })
    } else if op.n == 14 {
        let s = shift_source(v, op);
        set_with_flag(v, x, ((s * 2) % 256) as u8, s / 128)
    } else {
        v
    }
}

/// Whether column `c` is lit by sprite row `byte` whose left edge is `x0`:
/// bit 7 of the byte is the leftmost of its eight columns.
pub open spec fn sprite_lit(x0: int, byte: u8, c: int) -> bool {
    x0 <= c < x0 + 8 && (byte >> ((7 - (c - x0)) as u8)) & 1u8 == 1u8
}

/// A display row after XOR-ing in one sprite row; columns past the right
/// edge are dropped.
pub open spec fn drawn_row(row: Seq<u8>, x0: int, byte: u8) -> Seq<u8> {
    Seq::new(64, |c: int| if sprite_lit(x0, byte, c) { row[c] ^ 1u8 } else { row[c] })
}

/// Whether drawing `byte` at `x0` turns off a pixel of `row` that was on.
pub open spec fn row_collides(row: Seq<u8>, x0: int, byte: u8) -> bool {
    exists|c: int| 0 <= c < 64 && #[trigger] sprite_lit(x0, byte, c) && row[c] == 1
}

/// The sprite byte drawn on display row `r` when the sprite's top row is `y0`.
pub open spec fn sprite_byte(v: MachineView, y0: int, r: int) -> u8 {
    v.memory[v.index_register + (r - y0)]
}

/// Left column of a sprite: Vx wrapped to the display width.
pub open spec fn sprite_x(v: MachineView, op: Instruction) -> int {
    v.registers[op.x as int] as int % 64
}

/// Top row of a sprite: Vy wrapped to the display height.
pub open spec fn sprite_y(v: MachineView, op: Instruction) -> int {
    v.registers[op.y as int] as int % 32
}

/// Whether a block of `len` bytes from `start` lies inside memory.
pub open spec fn in_memory(start: int, len: int) -> bool {
    start <= 4095 && start + len <= 4096
}

/// Draws the `n`-row sprite at I to (Vx mod 64, Vy mod 32), clipped at the
/// display edges; VF tells whether any lit pixel was turned off.
#[verifier::opaque]
pub open spec fn step_draw(v: MachineView, op: Instruction) -> MachineView {
    let x0 = sprite_x(v, op);
    let y0 = sprite_y(v, op);
    let display = Seq::new(
        32,
        |r: int|
            if y0 <= r < y0 + op.n {
                drawn_row(v.display[r], x0, sprite_byte(v, y0, r))
            } else {
                v.display[r]
            },
    );
    let collided = exists|r: int|
        y0 <= r < 32 && r < y0 + op.n && #[trigger] row_collides(
            v.display[r],
            x0,
            sprite_byte(v, y0, r),
        );
    MachineView {
        display,
        registers: v.registers.update(15, if collided { 1u8 } else { 0u8 }),
        ..v
    }
}

/// XORs one sprite row into a display row and reports a collision.
fn draw_row(row: &mut [u8; 64], x0: usize, byte: u8) -> (hit: bool)
    requires
        x0 < 64,
    ensures
        final(row)@ == drawn_row(old(row)@, x0 as int, byte),
        hit == row_collides(old(row)@, x0 as int, byte),
{
    let mut hit = false;
    let mut i: usize = 0;
    while i < 8 && x0 + i < 64
        invariant
            i <= 8,
            x0 < 64,
            x0 + i <= 64,
            forall|c: int|
                0 <= c < 64 ==> #[trigger] row@[c] == if c < x0 + i && sprite_lit(x0 as int, byte, c) {
                    old(row)@[c] ^ 1u8
                } else {
                    old(row)@[c]
                },
            hit == exists|c: int|
                0 <= c < x0 + i && #[trigger] sprite_lit(x0 as int, byte, c) && old(row)@[c] == 1,
        decreases 8 - i,
    {
        let col = x0 + i;
        let shift = 7 - i as u8;
        assert(shift == (7 - (col - x0)) as u8);
        let lit = (byte >> shift) & 1 == 1;
        assert(lit == sprite_lit(x0 as int, byte, col as int));
        if lit {
            if row[col] == 1 {
                hit = true;
            }
            row[col] = row[col] ^ 1;
        }
        i += 1;
    }
    assert(final(row)@ =~= drawn_row(old(row)@, x0 as int, byte));
    hit
}

/// The legacy variant moves I past a block of `x + 1` registers just moved.
pub open spec fn advance_index(v: MachineView, x: int) -> MachineView {
    if v.mode == Mode::Chip8 {
        MachineView { index_register: (v.index_register + x + 1) as u16, ..v }
    } else {
        v
    }
}

/// Hundreds, tens and ones of Vx stored at I, I+1 and I+2.
pub open spec fn step_bcd(v: MachineView, op: Instruction) -> MachineView {
    let i = v.index_register as int;
    let b = v.registers[op.x as int];
    MachineView {
        memory: v.memory.update(i, b / 100).update(i + 1, (b / 10) % 10).update(i + 2, b % 10),
        ..v
    }
}

/// V0..=Vx stored to memory from I on.
pub open spec fn step_store(v: MachineView, op: Instruction) -> MachineView {
    let i = v.index_register as int;
    let memory = Seq::new(
        v.memory.len(),
        |a: int| if i <= a <= i + op.x { v.registers[a - i] } else { v.memory[a] },
    );
    advance_index(MachineView { memory, ..v }, op.x as int)
}

/// V0..=Vx loaded from memory from I on.
pub open spec fn step_load(v: MachineView, op: Instruction) -> MachineView {
    let i = v.index_register as int;
    let registers = Seq::new(
        16,
        |k: int| if k <= op.x { v.memory[i + k] } else { v.registers[k] },
    );
    advance_index(MachineView { registers, ..v }, op.x as int)
}

/// The return address pushed, when a slot is free.
pub open spec fn push_return(v: MachineView) -> MachineView {
    if v.stack_pointer < 15 {
        MachineView {
            stack_pointer: v.stack_pointer + 1,
            stack: v.stack.update(v.stack_pointer + 1, v.program_counter as usize),
            ..v
        }
    } else {
        v
    }
}

/// The top return address popped into the counter, when there is one.
pub open spec fn pop_return(v: MachineView) -> MachineView {
    if v.stack_pointer >= 0 {
        MachineView {
            program_counter: v.stack[v.stack_pointer] as int,
            stack_pointer: v.stack_pointer - 1,
            ..v
        }
    } else {
        v
    }
}

/// Class 0xF, keyed by `nn`: timers, keypad wait, I arithmetic and the
/// memory-block transfers.
#[verifier::opaque]
pub open spec fn step_misc(v: MachineView, op: Instruction, kb: KeyboardState) -> (MachineView, Result<Actions, ExecError>) {
    let x = op.x as int;
    let vx = v.registers[x];
    let i = v.index_register as int;
    let done = Ok(Actions::NoChange);
    let oob = Err(ExecError::MemoryOutOfRange);
    if op.nn == 0x07 {
        (set_reg(v, x, v.delay_timer), done)
    } else if op.nn == 0x0A {
        match kb.pressed_key {
            Some(k) => (set_reg(v, x, k), done),
            None => (MachineView { program_counter: v.program_counter - 2, ..v }, done),
        }
    } else if op.nn == 0x15 {
        (MachineView { delay_timer: vx, ..v }, done)
    } else if op.nn == 0x18 {
        (MachineView { sound_timer: vx, ..v }, done)
    } else if op.nn == 0x1E {
        (MachineView { index_register: ((i + vx) % 65536) as u16, ..v }, done)
    } else if op.nn == 0x29 {
        (MachineView { index_register: (FONTSET_START_ADDRESS + vx * 5) as u16, ..v }, done)
    } else if op.nn == 0x33 {
        if in_memory(i, 3) {
            (step_bcd(v, op), done)
        } else {
            (v, oob)
        }
    } else if op.nn == 0x55 {
        if in_memory(i, x + 1) {
            (step_store(v, op), done)
        } else {
            (v, oob)
        }
    } else if op.nn == 0x65 {
        if in_memory(i, x + 1) {
            (step_load(v, op), done)
        } else {
            (v, oob)
        }
    } else {
        (v, done)
    }
}

/// One instruction executed on `v`, with `kb` the keypad snapshot and `rnd`
/// the random byte that class 0xC masks: the new state and the outcome.
pub open spec fn step(v: MachineView, op: Instruction, kb: KeyboardState, rnd: u8) -> (MachineView, Result<Actions, ExecError>) {
    let x = op.x as int;
    let vx = v.registers[x];
    let vy = v.registers[op.y as int];
    let done = Ok(Actions::NoChange);
    if op.instruction == 0x0 {
        if op.nn == 0xE0 {
            (MachineView { display: blank_display(), ..v }, Ok(Actions::Redraw))
        } else if op.nn == 0xEE {
            (pop_return(v), done)
        } else {
            (v, done)
        }
    } else if op.instruction == 0x1 {
        (MachineView { program_counter: op.nnn as int, ..v }, done)
    } else if op.instruction == 0x2 {
        (MachineView { program_counter: op.nnn as int, ..push_return(v) }, done)
    } else if op.instruction == 0x3 {
        (skip_if(v, vx == op.nn), done)
    } else if op.instruction == 0x4 {
        (skip_if(v, vx != op.nn), done)
    } else if op.instruction == 0x5 {
        (skip_if(v, vx == vy), done)
    } else if op.instruction == 0x6 {
        (set_reg(v, x, op.nn), done)
    } else if op.instruction == 0x7 {
        (set_reg(v, x, ((vx + op.nn) % 256) as u8), done)
    } else if op.instruction == 0x8 {
        (step_alu(v, op), done)
    } else if op.instruction == 0x9 {
        (skip_if(v, vx != vy), done)
    } else if op.instruction == 0xA {
        (MachineView { index_register: op.nnn as u16, ..v }, done)
    } else if op.instruction == 0xB {
        let offset = if v.mode == Mode::Chip8 { v.registers[0] } else { vx };
        (MachineView { program_counter: op.nnn + offset, ..v }, done)
    } else if op.instruction == 0xC {
        (set_reg(v, x, rnd & op.nn), done)
    } else if op.instruction == 0xD {
        if in_memory(v.index_register as int, op.n as int) {
            (step_draw(v, op), Ok(Actions::Redraw))
        } else {
            (v, Err(ExecError::MemoryOutOfRange))
        }
    } else if op.instruction == 0xE {
        if op.nn == 0x9E {
            (skip_if(v, kb.held(vx)), done)
        } else if op.nn == 0xA1 {
            (skip_if(v, !kb.held(vx)), done)
        } else {
            (v, done)
        }
    } else if op.instruction == 0xF {
        step_misc(v, op, kb)
    } else {
        (v, done)
    }
}

/// Relies on rand::random::<u8>: a byte drawn from the thread-local
/// generator. Nothing is known of its value.
#[verifier::external_body]
fn random_byte() -> (r: u8) {
    rand::random::<u8>()
}

/// Shifting a byte by one is halving or doubling modulo 256; the bit shifted
/// out is the low bit, or the high bit.
proof fn lemma_shift_bits(s: u8)
    by (bit_vector)
    ensures
        s >> 1u8 == s / 2,
        s & 1u8 == s % 2,
        s << 1u8 == ((s * 2) % 256) as u8,
        s >> 7u8 == s / 128,
{
}

impl Chip8 {
    fn set_register(&mut self, i: usize, b: u8)
        requires
            i < 16,
        ensures
            final(self)@ == set_reg(old(self)@, i as int, b),
    {
        self.registers[i] = b;
        assert(self@.display == old(self)@.display);
        assert(self@.registers == old(self)@.registers.update(i as int, b));
    }

    fn exec_alu(&mut self, op: &Instruction)
        requires
            op.wf(),
        ensures
            final(self)@ == step_alu(old(self)@, *op),
            final(self).stack_pointer == old(self).stack_pointer,
    {
        reveal(step_alu);
        let x = op.x;
        let vx = self.registers[x];
        let vy = self.registers[op.y];
        match op.n {
            0x0 => {
                self.set_register(x, vy);
            },
            0x1 => {
                self.set_register(x, vx | vy);
                self.clear_flag_if_legacy();
            },
            0x2 => {
                self.set_register(x, vx & vy);
                self.clear_flag_if_legacy();
            },
            0x3 => {
                self.set_register(x, vx ^ vy);
                self.clear_flag_if_legacy();
            },
            0x4 => {
                self.set_register(x, vx.wrapping_add(vy));
                self.set_register(0xF, if vx as u16 + vy as u16 > 255 { 1 } else { 0 });
            },
            0x5 => {
                self.set_register(x, vx.wrapping_sub(vy));
                self.set_register(0xF, if vx >= vy { 1 } else { 0 });
            },
            0x6 => {
                let s = match self.mode {
                    Mode::Chip8 => vy,
                    Mode::Chip48 => vx,
                };
                proof {
                    lemma_shift_bits(s);
                }
                self.set_register(x, s >> 1);
                self.set_register(0xF, s & 1);
            },
            0x7 => {
                self.set_register(x, vy.wrapping_sub(vx));
                self.set_register(0xF, if vy >= vx { 1 } else { 0 });
            },
            0xE => {
                let s = match self.mode {
                    Mode::Chip8 => vy,
                    Mode::Chip48 => vx,
                };
                proof {
                    lemma_shift_bits(s);
                }
                self.set_register(x, s << 1);
                self.set_register(0xF, s >> 7);
            },
            _ => {},
        }
    }

    fn exec_draw(&mut self, op: &Instruction)
        requires
            op.wf(),
            in_memory(old(self).index_register as int, op.n as int),
        ensures
            final(self)@ == step_draw(old(self)@, *op),
            final(self).stack_pointer == old(self).stack_pointer,
    {
        reveal(step_draw);
        let x0 = (self.registers[op.x] % 64) as usize;
        let y0 = (self.registers[op.y] % 32) as usize;
        let base = self.index_register as usize;
        let ghost v = self@;
        let mut hit = false;
        let mut j: usize = 0;
        while j < op.n && y0 + j < 32
            invariant
                op.wf(),
                j <= op.n,
                y0 + j <= 32,
                x0 as int == sprite_x(v, *op),
                y0 as int == sprite_y(v, *op),
                base == v.index_register,
                base + op.n <= 4096,
                v.display.len() == 32,
                self@ == (MachineView { display: self@.display, ..v }),
                forall|r: int|
                    0 <= r < 32 ==> #[trigger] self@.display[r] == if y0 <= r < y0 + j {
                        drawn_row(v.display[r], x0 as int, sprite_byte(v, y0 as int, r))
                    } else {
                        v.display[r]
                    },
                hit == exists|r: int|
                    y0 <= r < y0 + j && #[trigger] row_collides(
                        v.display[r],
                        x0 as int,
                        sprite_byte(v, y0 as int, r),
                    ),
            decreases op.n - j,
        {
            let ghost before = self@.display;
            let ghost r0 = (y0 + j) as int;
            let mut row = self.display[y0 + j];
            assert(self@.display[r0] == v.display[r0]);
            assert(self@.display[r0] == self.display@[r0]@);
            assert(row@ == v.display[r0]);
            let byte = self.memory[base + j];
            assert(byte == sprite_byte(v, y0 as int, r0));
            let h = draw_row(&mut row, x0, byte);
            self.display[y0 + j] = row;
            assert(self@.display =~= before.update(r0, row@));
            proof {
                if h {
                    assert(row_collides(v.display[r0], x0 as int, sprite_byte(v, y0 as int, r0)));
                }
                if !hit && !h {
                    assert forall|r: int| y0 <= r < y0 + j + 1 implies !#[trigger] row_collides(
                        v.display[r],
                        x0 as int,
                        sprite_byte(v, y0 as int, r),
                    ) by {
                        if r < y0 + j {
                        } else {
                            assert(r == r0);
                        }
                    }
                }
            }
            hit = hit || h;
            j += 1;
        }
        self.set_register(0xF, if hit { 1 } else { 0 });
        assert(self@.display =~= step_draw(v, *op).display);
    }

    fn skip_next_if(&mut self, cond: bool)
        requires
            old(self).program_counter <= 0xFFFF,
        ensures
            final(self)@ == skip_if(old(self)@, cond),
    {
        if cond {
            self.program_counter += 2;
        }
    }

    fn advance_index_if_legacy(&mut self, x: usize)
        requires
            x < 16,
            old(self).index_register + x + 1 <= 4096,
        ensures
            final(self)@ == advance_index(old(self)@, x as int),
    {
        match self.mode {
            Mode::Chip8 => {
                self.index_register = self.index_register + x as u16 + 1;
            },
            Mode::Chip48 => {},
        }
    }

    fn exec_bcd(&mut self, op: &Instruction)
        requires
            op.wf(),
            in_memory(old(self).index_register as int, 3),
        ensures
            final(self)@ == step_bcd(old(self)@, *op),
    {
        let value = self.registers[op.x];
        let base = self.index_register as usize;
        self.memory[base] = value / 100;
        self.memory[base + 1] = (value / 10) % 10;
        self.memory[base + 2] = value % 10;
    }

    fn exec_store(&mut self, op: &Instruction)
        requires
            op.wf(),
            in_memory(old(self).index_register as int, op.x + 1),
        ensures
            final(self)@ == step_store(old(self)@, *op),
    {
        let base = self.index_register as usize;
        let ghost v = self@;
        let mut k: usize = 0;
        while k <= op.x
            invariant
                op.wf(),
                k <= op.x + 1,
                base == v.index_register,
                base + op.x + 1 <= 4096,
                self@ == (MachineView { memory: self@.memory, ..v }),
                forall|a: int|
                    0 <= a < 4096 ==> #[trigger] self@.memory[a] == if base <= a < base + k {
                        v.registers[a - base]
                    } else {
                        v.memory[a]
                    },
            decreases op.x + 1 - k,
        {
            self.memory[base + k] = self.registers[k];
            k += 1;
        }
        assert(self@.memory =~= Seq::new(
            v.memory.len(),
            |a: int| if base <= a <= base + op.x { v.registers[a - base] } else { v.memory[a] },
        ));
        self.advance_index_if_legacy(op.x);
    }

    fn exec_load(&mut self, op: &Instruction)
        requires
            op.wf(),
            in_memory(old(self).index_register as int, op.x + 1),
        ensures
            final(self)@ == step_load(old(self)@, *op),
    {
        let base = self.index_register as usize;
        let ghost v = self@;
        let mut k: usize = 0;
        while k <= op.x
            invariant
                op.wf(),
                k <= op.x + 1,
                base == v.index_register,
                base + op.x + 1 <= 4096,
                self@ == (MachineView { registers: self@.registers, ..v }),
                forall|r: int|
                    0 <= r < 16 ==> #[trigger] self@.registers[r] == if r < k {
                        v.memory[base + r]
                    } else {
                        v.registers[r]
                    },
            decreases op.x + 1 - k,
        {
            self.registers[k] = self.memory[base + k];
            k += 1;
        }
        assert(self@.registers =~= Seq::new(
            16,
            |r: int| if r <= op.x { v.memory[base + r] } else { v.registers[r] },
        ));
        self.advance_index_if_legacy(op.x);
    }

    fn exec_misc(&mut self, op: &Instruction, keyboard_state: &KeyboardState) -> (r: Result<Actions, ExecError>)
        requires
            op.wf(),
            op.instruction == 0xF,
            old(self)@.runnable(),
        ensures
            (final(self)@, r) == step_misc(old(self)@, *op, *keyboard_state),
            final(self).stack_pointer == old(self).stack_pointer,
    {
        reveal(step_misc);
        let x = op.x;
        let base = self.index_register as usize;
        match op.nn {
            0x07 => {
                let t = self.delay_timer;
                self.set_register(x, t);
            },
            0x0A => {
                match keyboard_state.pressed_key {
                    Some(key) => {
                        self.set_register(x, key);
                    },
                    None => {
                        self.program_counter -= 2;
                    },
                }
            },
            0x15 => {
                self.delay_timer = self.registers[x];
            },
            0x18 => {
                self.sound_timer = self.registers[x];
            },
            0x1E => {
                self.index_register = self.index_register.wrapping_add(self.registers[x] as u16);
            },
            0x29 => {
                self.index_register = FONTSET_START_ADDRESS as u16 + self.registers[x] as u16 * 5;
            },
            0x33 => {
                if base > 4093 {
                    return Err(ExecError::MemoryOutOfRange);
                }
                self.exec_bcd(op);
            },
            0x55 => {
                if base + x >= 4096 {
                    return Err(ExecError::MemoryOutOfRange);
                }
                self.exec_store(op);
            },
            0x65 => {
                if base + x >= 4096 {
                    return Err(ExecError::MemoryOutOfRange);
                }
                self.exec_load(op);
            },
            _ => {},
        }
        Ok(Actions::NoChange)
    }

    /// Executes one decoded instruction, with `random` as the byte that the
    /// random-number opcode (class 0xC) masks. Fails, leaving the machine as
    /// it was, only when the instruction would reach past the end of memory.
    pub fn execute_with_random(
        &mut self,
        operation: &Instruction,
        keyboard_state: &KeyboardState,
        random: u8,
    ) -> (r: Result<Actions, ExecError>)
        requires
            old(self)@.runnable(),
            operation.wf(),
        ensures
            (final(self)@, r) == step(old(self)@, *operation, *keyboard_state, random),
            final(self)@.wf(),
    {
        let op = operation;
        let x = op.x;
        let vx = self.registers[x];
        let vy = self.registers[op.y];
        match op.instruction {
            0x0 => match op.nn {
                0xE0 => {
                    self.display = [[0; 64]; 32];
                    assert(self@.display =~~= blank_display());
                    return Ok(Actions::Redraw);
                },
                0xEE => {
                    if self.stack_pointer >= 0 {
                        self.program_counter = self.stack[self.stack_pointer as usize];
                        self.stack_pointer -= 1;
                    }
                },
                _ => {},
            },
            0x1 => {
                self.program_counter = op.nnn;
            },
            0x2 => {
                if self.stack_pointer < 15 {
                    self.stack[(self.stack_pointer + 1) as usize] = self.program_counter;
                    self.stack_pointer += 1;
                }
                self.program_counter = op.nnn;
            },
            0x3 => {
                self.skip_next_if(vx == op.nn);
            },
            0x4 => {
                self.skip_next_if(vx != op.nn);
            },
            0x5 => {
                self.skip_next_if(vx == vy);
            },
            0x6 => {
                self.set_register(x, op.nn);
            },
            0x7 => {
                self.set_register(x, vx.wrapping_add(op.nn));
            },
            0x8 => {
                self.exec_alu(op);
            },
            0x9 => {
                self.skip_next_if(vx != vy);
            },
            0xA => {
                self.index_register = op.nnn as u16;
            },
            0xB => {
                let offset = match self.mode {
                    Mode::Chip8 => self.registers[0],
                    Mode::Chip48 => vx,
                };
                self.program_counter = op.nnn + offset as usize;
            },
            0xC => {
                self.set_register(x, random & op.nn);
            },
            0xD => {
                let base = self.index_register as usize;
                if base > 4095 || base + op.n > 4096 {
                    return Err(ExecError::MemoryOutOfRange);
                }
                self.exec_draw(op);
                return Ok(Actions::Redraw);
            },
            0xE => match op.nn {
                0x9E => {
                    self.skip_next_if(vx < 16 && keyboard_state.keys_pressed[vx as usize]);
                },
                0xA1 => {
                    self.skip_next_if(!(vx < 16 && keyboard_state.keys_pressed[vx as usize]));
                },
                _ => {},
            },
            0xF => {
                return self.exec_misc(op, keyboard_state);
            },
            _ => {},
        }
        Ok(Actions::NoChange)
    }

    /// Executes one decoded instruction; the random-number opcode draws its
    /// byte from the thread-local generator. Whatever byte comes out, the
    /// result is that of `execute_with_random` with it.
    pub fn execute(&mut self, operation: &Instruction, keyboard_state: &KeyboardState) -> (r: Result<Actions, ExecError>)
        requires
            old(self)@.runnable(),
            operation.wf(),
        ensures
            exists|b: u8| (final(self)@, r) == #[trigger] step(old(self)@, *operation, *keyboard_state, b),
            operation.instruction != 0xC ==> (final(self)@, r) == step(old(self)@, *operation, *keyboard_state, 0),
            final(self)@.wf(),
    {
        let random = if operation.instruction == 0xC {
            random_byte()
        } else {
            0
        };
        self.execute_with_random(operation, keyboard_state, random)
    }

    fn clear_flag_if_legacy(&mut self)
        ensures
            final(self)@ == logic_flag(old(self)@),
    {
        match self.mode {
            Mode::Chip8 => {
                self.set_register(0xF, 0);
            },
            Mode::Chip48 => {},
        }
    }
}

} // verus!
