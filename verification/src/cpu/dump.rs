//! Memory and registers as text, for debugging.

use super::Cpu;
use crate::text::{push_char, push_text, push_upper_hex, upper_hex};
use vstd::prelude::*;

verus! {

/// Bytes in one line of the memory dump.
pub const DUMP_WIDTH: usize = 16;

/// Lines in the memory dump, where none is left out.
pub const DUMP_LINES: usize = 256;

/// The numbers that head the sixteen columns of a dump.
pub const COLUMNS: [u8; 16] = [0, 1, 2, 3, 4, 5, 6, 7, 8, 9, 10, 11, 12, 13, 14, 15];

/// For each byte, a space and its two hexadecimal digits.
pub open spec fn bytes_text(bytes: Seq<u8>) -> Seq<char>
    decreases bytes.len(),
{
    if bytes.len() == 0 {
        Seq::empty()
    } else {
        bytes_text(bytes.drop_last()) + seq![' '] + upper_hex(bytes.last() as nat, 2)
    }
}

/// Whether every byte is zero.
pub open spec fn all_zero(bytes: Seq<u8>) -> bool {
    forall|i: int| 0 <= i < bytes.len() ==> bytes[i] == 0
}

/// The sixteen bytes of line `line` of memory.
pub open spec fn dump_row(memory: Seq<u8>, line: int) -> Seq<u8> {
    memory.subrange(16 * line, 16 * line + 16)
}

/// The text for line `line` of the memory dump. A line that holds a byte
/// other than zero shows its offset and its bytes. Of a run of lines that
/// hold zeros only, the first shows as an asterisk and the others do not
/// show.
pub open spec fn memory_line(memory: Seq<u8>, line: int) -> Seq<char> {
    if !all_zero(dump_row(memory, line)) {
        upper_hex((16 * line) as nat, 8) + "   "@ + bytes_text(dump_row(memory, line)) + seq!['\n']
    } else if line > 0 && all_zero(dump_row(memory, line - 1)) {
        Seq::empty()
    } else {
        "  *  \n"@
    }
}

/// The text for the first `n` lines of memory.
pub open spec fn memory_lines(memory: Seq<u8>, n: int) -> Seq<char>
    decreases n,
{
    if n <= 0 {
        Seq::empty()
    } else {
        memory_lines(memory, n - 1) + memory_line(memory, n - 1)
    }
}

/// The memory dump: a heading, then the lines.
pub open spec fn memory_dump(memory: Seq<u8>) -> Seq<char> {
    "Offset (h) "@ + bytes_text(COLUMNS@) + seq!['\n'] + memory_lines(memory, 256)
}

/// The register dump: the register numbers above the register values.
pub open spec fn registers_dump(registers: Seq<u8>) -> Seq<char> {
    "Register (h) "@ + bytes_text(COLUMNS@) + seq!['\n'] + "Value    (h) "@ + bytes_text(
        registers,
    ) + seq!['\n']
}

/// The line that shows the address register, in at least four digits.
pub open spec fn address_dump(address: int) -> Seq<char> {
    "Addr reg (h)  "@ + upper_hex(address as nat, 4) + seq!['\n']
}

/// Appends a space and two hexadecimal digits for each byte.
fn push_bytes(text: &mut String, bytes: &[u8])
    ensures
        final(text)@ == old(text)@ + bytes_text(bytes@),
{
    let mut i: usize = 0;
    while i < bytes.len()
        invariant
            i <= bytes@.len(),
            text@ == old(text)@ + bytes_text(bytes@.take(i as int)),
        decreases bytes@.len() - i,
    {
        push_char(text, ' ');
        push_upper_hex(text, bytes[i] as usize, 2);
        i += 1;
        proof {
            let done = bytes@.take(i as int);
            assert(done.drop_last() =~= bytes@.take(i - 1));
        }
    }
    assert(bytes@.take(bytes@.len() as int) =~= bytes@);
}

/// Whether every byte is zero.
fn is_all_zero(bytes: &[u8]) -> (zero: bool)
    ensures
        zero == all_zero(bytes@),
{
    let mut i: usize = 0;
    while i < bytes.len()
        invariant
            i <= bytes@.len(),
            forall|j: int| 0 <= j < i ==> bytes@[j] == 0,
        decreases bytes@.len() - i,
    {
        if bytes[i] != 0 {
            return false;
        }
        i += 1;
    }
    true
}

impl Cpu {
    /// All of memory in hexadecimal, sixteen bytes to the line, runs of
    /// zero lines shortened to an asterisk.
    pub fn dump_memory(&self) -> (text: String)
        ensures
            text@ == memory_dump(self@.memory),
    {
        let memory = self.memory();
        let mut text = String::new();
        push_text(&mut text, "Offset (h) ");
        push_bytes(&mut text, &COLUMNS);
        push_char(&mut text, '\n');
        let ghost heading = text@;
        let mut last_zero = false;
        let mut line: usize = 0;
        while line < DUMP_LINES
            invariant
                line <= 256,
                memory@.len() >= 4096,
                text@ == heading + memory_lines(memory@, line as int),
                last_zero == (line > 0 && all_zero(dump_row(memory@, line - 1))),
            decreases 256 - line,
        {
            let offset = DUMP_WIDTH * line;
            let row = &memory[offset..offset + DUMP_WIDTH];
            let zero = is_all_zero(row);
            if zero {
                if !last_zero {
                    push_text(&mut text, "  *  \n");
                }
            } else {
                push_upper_hex(&mut text, offset, 8);
                push_text(&mut text, "   ");
                push_bytes(&mut text, row);
                push_char(&mut text, '\n');
            }
            last_zero = zero;
            line += 1;
        }
        text
    }

    /// The sixteen registers in hexadecimal, under their numbers.
    pub fn dump_registers(&self) -> (text: String)
        ensures
            text@ == registers_dump(self@.registers),
    {
        let mut text = String::new();
        push_text(&mut text, "Register (h) ");
        push_bytes(&mut text, &COLUMNS);
        push_char(&mut text, '\n');
        push_text(&mut text, "Value    (h) ");
        push_bytes(&mut text, self.registers());
        push_char(&mut text, '\n');
        text
    }

    /// Memory, registers and the address register as text.
    pub fn dump(&self) -> (text: String)
        ensures
            text@ == memory_dump(self@.memory) + registers_dump(self@.registers) + address_dump(
                self@.address_register,
            ),
    {
        let mut text = self.dump_memory();
        let registers = self.dump_registers();
        push_text(&mut text, registers.as_str());
        push_text(&mut text, "Addr reg (h)  ");
        push_upper_hex(&mut text, self.address_register(), 4);
        push_char(&mut text, '\n');
        text
    }
}

} // verus!
