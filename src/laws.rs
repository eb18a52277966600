use vstd::prelude::*;

use crate::decode::Instruction;
use crate::execute::{
    step_alu, step_draw, step_misc, drawn_row, in_memory, row_collides, sprite_byte, sprite_lit, sprite_x, sprite_y, step,
};
use crate::machine::{Actions, Chip8, ExecError, KeyboardState, MachineView, Mode};

verus! {

/// Whether a skip instruction's condition holds in `v`.
pub open spec fn skip_taken(v: MachineView, op: Instruction) -> bool {
    let vx = v.registers[op.x as int];
    let vy = v.registers[op.y as int];
    ||| op.instruction == 0x3 && vx == op.nn
    ||| op.instruction == 0x4 && vx != op.nn
    ||| op.instruction == 0x5 && vx == vy
    ||| op.instruction == 0x9 && vx != vy
}

/// For an instruction of class 0x1 to 0xC, fetching it and executing it
/// moves the program counter on by exactly 2, except that a jump or call
/// sets it to `nnn`, the offset jump to `nnn` plus the offset register, and a
/// skip whose condition holds moves it on by 4.
pub proof fn law_program_counter_advance(v: MachineView, op: Instruction, kb: KeyboardState, rnd: u8)
    requires
        v.wf(),
        op.wf(),
        1 <= op.instruction <= 0xC,
    ensures
        ({
            let (w, r) = step(Chip8::fetched(v), op, kb, rnd);
            &&& r == Ok::<Actions, ExecError>(Actions::NoChange)
            &&& w.program_counter == if op.instruction == 0x1 || op.instruction == 0x2 {
                op.nnn as int
            } else if op.instruction == 0xB {
                op.nnn + if v.mode == Mode::Chip8 {
                    v.registers[0]
                } else {
                    v.registers[op.x as int]
                }
            } else if skip_taken(v, op) {
                v.program_counter + 4
            } else {
                v.program_counter + 2
            }
        }),
{
    reveal(step_alu);
}

/// Waiting for a key: with no key pressed, fetching and executing the wait
/// instruction leaves the machine exactly as it was, so it is fetched again
/// on the next cycle; once a key is pressed the counter moves on by 2 and Vx
/// holds the key.
pub proof fn law_key_wait(v: MachineView, op: Instruction, kb: KeyboardState, rnd: u8)
    requires
        v.wf(),
        op.wf(),
        op.instruction == 0xF,
        op.nn == 0x0A,
    ensures
        ({
            let (w, r) = step(Chip8::fetched(v), op, kb, rnd);
            &&& r == Ok::<Actions, ExecError>(Actions::NoChange)
            &&& kb.pressed_key is None ==> w == v
            &&& kb.pressed_key is Some ==> {
                &&& w.program_counter == v.program_counter + 2
                &&& w.registers[op.x as int] == kb.pressed_key->0
            }
        }),
{
    reveal(step_misc);
}

/// Additions wrap modulo 256 and never fail: adding `nn` (class 0x7) leaves
/// the flag register alone, and adding Vy (class 0x8, n = 4) sets VF to 1
/// exactly when the unsigned sum exceeds 255.
pub proof fn law_wrapping_add(v: MachineView, op: Instruction, kb: KeyboardState, rnd: u8)
    requires
        v.wf(),
        op.wf(),
        op.instruction == 0x7 || (op.instruction == 0x8 && op.n == 4),
    ensures
        ({
            let (w, r) = step(v, op, kb, rnd);
            let vx = v.registers[op.x as int];
            let vy = v.registers[op.y as int];
            &&& r == Ok::<Actions, ExecError>(Actions::NoChange)
            &&& op.instruction == 0x7 ==> {
                &&& w.registers[op.x as int] == (vx + op.nn) % 256
                &&& op.x != 15 ==> w.registers[15] == v.registers[15]
            }
            &&& op.instruction == 0x8 ==> {
                &&& w.registers[15] == if vx + vy > 255 { 1u8 } else { 0u8 }
                &&& op.x != 15 ==> w.registers[op.x as int] == (vx + vy) % 256
            }
        }),
{
    reveal(step_alu);
}

/// The right shift (class 0x8, n = 6): the legacy variant shifts Vy into Vx,
/// the modern one shifts Vx itself; VF receives the bit shifted out.
pub proof fn law_shift_right_variant(v: MachineView, op: Instruction, kb: KeyboardState, rnd: u8)
    requires
        v.wf(),
        op.wf(),
        op.instruction == 0x8,
        op.n == 6,
        op.x != 15,
    ensures
        ({
            let (w, r) = step(v, op, kb, rnd);
            let src = if v.mode == Mode::Chip8 {
                v.registers[op.y as int]
            } else {
                v.registers[op.x as int]
            };
            &&& r == Ok::<Actions, ExecError>(Actions::NoChange)
            &&& w.registers[op.x as int] == src / 2
            &&& w.registers[15] == src % 2
        }),
{
    reveal(step_alu);
}

/// A sprite is clipped at the bottom edge, not wrapped: every display row
/// above its top row (and so every row that a wrapped sprite would reach)
/// is left as it was, and rows at or below the top row but past the sprite's
/// height are too.
pub proof fn law_sprite_clipped(v: MachineView, op: Instruction, kb: KeyboardState, rnd: u8)
    requires
        v.wf(),
        op.wf(),
        op.instruction == 0xD,
    ensures
        ({
            let (w, r) = step(v, op, kb, rnd);
            let y0 = sprite_y(v, op);
            forall|row: int|
                0 <= row < 32 && !(y0 <= row < y0 + op.n) ==> #[trigger] w.display[row]
                    == v.display[row]
        }),
{
    reveal(step_draw);
}

/// Drawing the same sprite twice at the same place restores the display,
/// and the second draw reports a collision whenever the sprite lights a
/// pixel that was off before the first.
pub proof fn law_draw_twice(v: MachineView, op: Instruction, kb: KeyboardState, rnd: u8)
    requires
        v.wf(),
        op.wf(),
        op.instruction == 0xD,
        op.x != 15,
        op.y != 15,
        in_memory(v.index_register as int, op.n as int),
    ensures
        ({
            let (w1, r1) = step(v, op, kb, rnd);
            let (w2, r2) = step(w1, op, kb, rnd);
            let x0 = sprite_x(v, op);
            let y0 = sprite_y(v, op);
            &&& r1 == Ok::<Actions, ExecError>(Actions::Redraw)
            &&& r2 == Ok::<Actions, ExecError>(Actions::Redraw)
            &&& w2.display == v.display
            &&& (exists|row: int, c: int|
                y0 <= row < 32 && row < y0 + op.n && 0 <= c < 64 && #[trigger] sprite_lit(
                    x0,
                    sprite_byte(v, y0, row),
                    c,
                ) && #[trigger] v.display[row][c] == 0) ==> w2.registers[15] == 1
        }),
{
    reveal(step_draw);
    let (w1, r1) = step(v, op, kb, rnd);
    let (w2, r2) = step(w1, op, kb, rnd);
    let x0 = sprite_x(v, op);
    let y0 = sprite_y(v, op);
    assert(sprite_x(w1, op) == x0);
    assert(sprite_y(w1, op) == y0);
    assert forall|row: int| 0 <= row < 32 implies #[trigger] w2.display[row] == v.display[row] by {
        if y0 <= row < y0 + op.n {
            let b = sprite_byte(v, y0, row);
            assert(sprite_byte(w1, y0, row) == b);
            assert forall|d: u8| (d ^ 1u8) ^ 1u8 == d by {
                assert((d ^ 1u8) ^ 1u8 == d) by (bit_vector);
            }
            assert(w2.display[row] =~= v.display[row]);
        }
    }
    assert(w2.display =~= v.display);
    if exists|row: int, c: int|
        y0 <= row < 32 && row < y0 + op.n && 0 <= c < 64 && #[trigger] sprite_lit(
            x0,
            sprite_byte(v, y0, row),
            c,
        ) && #[trigger] v.display[row][c] == 0 {
        let (row, c) = choose|row: int, c: int|
            y0 <= row < 32 && row < y0 + op.n && 0 <= c < 64 && #[trigger] sprite_lit(
                x0,
                sprite_byte(v, y0, row),
                c,
            ) && #[trigger] v.display[row][c] == 0;
        let b = sprite_byte(v, y0, row);
        assert(sprite_byte(w1, y0, row) == b);
        assert(0u8 ^ 1u8 == 1u8) by (bit_vector);
        assert(w1.display[row] == drawn_row(v.display[row], x0, b));
        assert(w1.display[row][c] == 1);
        assert(row_collides(w1.display[row], x0, b));
    }
}

/// Storing V0..=Vx and loading V0..=Vx back from the same I restores the
/// registers. The store writes only the `x + 1` bytes from I on, so memory
/// elsewhere is untouched; the legacy variant moves I on by `x + 1` after
/// each transfer, the modern one leaves it (so there the load follows the
/// store directly).
pub proof fn law_store_load_round_trip(
    v: MachineView,
    store: Instruction,
    load: Instruction,
    kb: KeyboardState,
    rnd: u8,
)
    requires
        v.wf(),
        store.wf(),
        load.wf(),
        store.instruction == 0xF,
        store.nn == 0x55,
        load.instruction == 0xF,
        load.nn == 0x65,
        load.x == store.x,
        in_memory(v.index_register as int, store.x + 1),
    ensures
        ({
            let i = v.index_register as int;
            let (w1, r1) = step(v, store, kb, rnd);
            let back = MachineView { index_register: v.index_register, ..w1 };
            let (w2, r2) = step(back, load, kb, rnd);
            let moved = if v.mode == Mode::Chip8 { i + store.x + 1 } else { i };
            &&& r1 == Ok::<Actions, ExecError>(Actions::NoChange)
            &&& r2 == Ok::<Actions, ExecError>(Actions::NoChange)
            &&& w2.registers == v.registers
            &&& w2.memory == w1.memory
            &&& forall|a: int|
                0 <= a < 4096 && !(i <= a <= i + store.x) ==> #[trigger] w1.memory[a]
                    == v.memory[a]
            &&& w1.index_register == moved
            &&& w2.index_register == moved
            &&& v.mode == Mode::Chip48 ==> back == w1
        }),
{
    reveal(step_misc);
    let (w1, r1) = step(v, store, kb, rnd);
    let back = MachineView { index_register: v.index_register, ..w1 };
    let (w2, r2) = step(back, load, kb, rnd);
    assert(w2.registers =~= v.registers);
}

} // verus!
