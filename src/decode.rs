use vstd::prelude::*;

verus! {

/// One opcode split into its fixed bit fields.
pub struct Instruction {
    /// The top four bits: the opcode class.
    pub instruction: u8,
    /// Bits 8..12: the first register index.
    pub x: usize,
    /// Bits 4..8: the second register index.
    pub y: usize,
    /// The low four bits.
    pub n: usize,
    /// The low byte.
    pub nn: u8,
    /// The low twelve bits: an address.
    pub nnn: usize,
}

impl Instruction {
    /// Every field lies in the range of its bit width.
    pub open spec fn wf(&self) -> bool {
        &&& self.instruction < 16
        &&& self.x < 16
        &&& self.y < 16
        &&& self.n < 16
        &&& self.nnn < 4096
    }

    /// The fields are exactly the bit slices of `opcode`.
    pub open spec fn decodes(&self, opcode: u16) -> bool {
        &&& self.instruction as int == opcode as int / 4096
        &&& self.x as int == (opcode as int / 256) % 16
        &&& self.y as int == (opcode as int / 16) % 16
        &&& self.n as int == opcode as int % 16
        &&& self.nn as int == opcode as int % 256
        &&& self.nnn as int == opcode as int % 4096
    }
}

/// Splits a 16-bit opcode into its fields. Total: every value decodes.
pub fn decode(opcode: u16) -> (r: Instruction)
    ensures
        r.decodes(opcode),
        r.wf(),
{
    let instruction = ((opcode & 0xF000) >> 12) as u8;
    let x = ((opcode & 0x0F00) >> 8) as usize;
    let y = ((opcode & 0x00F0) >> 4) as usize;
    let n = (opcode & 0x000F) as usize;
    let nn = (opcode & 0x00FF) as u8;
    let nnn = (opcode & 0x0FFF) as usize;
    assert(((opcode & 0xF000) >> 12) as int == opcode as int / 4096) by (bit_vector);
    assert(((opcode & 0x0F00) >> 8) as int == (opcode as int / 256) % 16) by (bit_vector);
    assert(((opcode & 0x00F0) >> 4) as int == (opcode as int / 16) % 16) by (bit_vector);
    assert((opcode & 0x000F) as int == opcode as int % 16) by (bit_vector);
    assert((opcode & 0x00FF) as int == opcode as int % 256) by (bit_vector);
    assert((opcode & 0x0FFF) as int == opcode as int % 4096) by (bit_vector);
    Instruction { instruction, x, y, n, nn, nnn }
}

} // verus!
