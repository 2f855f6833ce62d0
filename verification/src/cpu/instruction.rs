//! Bit-field decoding of a 16-bit instruction word.

use vstd::prelude::*;

verus! {

/// The high nibble of an instruction word (bits 15..12).
pub open spec fn opcode_of(word: u16) -> u8 {
    (word / 0x1000) as u8
}

/// The second nibble of an instruction word (bits 11..8), a register index.
pub open spec fn x_of(word: u16) -> u8 {
    ((word / 0x100) % 0x10) as u8
}

/// The third nibble of an instruction word (bits 7..4), a register index.
pub open spec fn y_of(word: u16) -> u8 {
    ((word / 0x10) % 0x10) as u8
}

/// The low twelve bits of an instruction word, an address.
pub open spec fn nnn_of(word: u16) -> u16 {
    word % 0x1000
}

/// The low byte of an instruction word.
pub open spec fn nn_of(word: u16) -> u8 {
    (word % 0x100) as u8
}

/// The low nibble of an instruction word.
pub open spec fn n_of(word: u16) -> u8 {
    (word % 0x10) as u8
}

/// Shifts and masks on a 16-bit word agree with division and remainder.
proof fn lemma_fields(w: u16)
    by (bit_vector)
    ensures
        (w >> 12) & 0xF == w / 0x1000,
        (w >> 8) & 0xF == (w / 0x100) % 0x10,
        (w >> 4) & 0xF == (w / 0x10) % 0x10,
        w & 0xFFF == w % 0x1000,
        w & 0xFF == w % 0x100,
        w & 0xF == w % 0x10,
{
}

/// One 16-bit instruction word.
#[derive(Clone, Copy, Debug)]
pub struct Instruction {
    value: u16,
}

impl View for Instruction {
    type V = u16;

    closed spec fn view(&self) -> u16 {
        self.value
    }
}

impl Instruction {
    /// The instruction that `content` encodes.
    pub fn new(content: u16) -> (instr: Self)
        ensures
            instr@ == content,
    {
        Self { value: content }
    }

    /// The whole word.
    pub fn value(&self) -> (word: u16)
        ensures
            word == self@,
    {
        self.value
    }

    /// The high nibble, which selects the kind of instruction.
    pub fn opcode(&self) -> (field: u8)
        ensures
            field == opcode_of(self@),
            field < 16,
    {
        proof {
            lemma_fields(self.value);
        }
        ((self.value >> 12) & 0xF) as u8
    }

    /// The second nibble, a register index.
    pub fn x(&self) -> (field: u8)
        ensures
            field == x_of(self@),
            field < 16,
    {
        proof {
            lemma_fields(self.value);
        }
        ((self.value >> 8) & 0xF) as u8
    }

    /// The third nibble, a register index.
    pub fn y(&self) -> (field: u8)
        ensures
            field == y_of(self@),
            field < 16,
    {
        proof {
            lemma_fields(self.value);
        }
        ((self.value >> 4) & 0xF) as u8
    }

    /// The low twelve bits, an address.
    pub fn nnn(&self) -> (field: u16)
        ensures
            field == nnn_of(self@),
            field < 0x1000,
    {
        proof {
            lemma_fields(self.value);
        }
        self.value & 0xFFF
    }

    /// The low byte, a constant.
    pub fn nn(&self) -> (field: u8)
        ensures
            field == nn_of(self@),
    {
        proof {
            lemma_fields(self.value);
        }
        (self.value & 0xFF) as u8
    }

    /// The low nibble, a constant or a selector.
    pub fn n(&self) -> (field: u8)
        ensures
            field == n_of(self@),
            field < 16,
    {
        proof {
            lemma_fields(self.value);
        }
        (self.value & 0xF) as u8
    }
}

} // verus!
