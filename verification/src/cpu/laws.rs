//! What holds of every machine.

use super::font::FONT;
use super::instruction::{nn_of, opcode_of, x_of};
use super::keypad::lemma_lowest_from;
use super::machine::{word_at, CpuError, Machine};
use vstd::prelude::*;

verus! {

/// A step that succeeds leaves a machine that keeps its sizes and ranges:
/// the program counter inside memory, the stack pointer at most sixteen.
pub proof fn lemma_step_preserves_wf(m: Machine, random: u8)
    requires
        m.wf(),
    ensures
        m.step(random) matches Ok(next) ==> next.wf() && 0 <= next.pc < 4096 && 0 <= next.sp <= 16,
{
    if m.running && m.pc + 1 < 4096 {
        let word = word_at(m.memory, m.pc);
        let fetched = m.jump(m.pc + 2);
        lemma_execute_preserves_sizes(fetched, word, random);
    }
}

/// An instruction that succeeds keeps every size and range but, possibly,
/// that of the program counter.
proof fn lemma_execute_preserves_sizes(m: Machine, word: u16, random: u8)
    requires
        m.sized(),
        0 <= m.pc <= 4097,
    ensures
        m.execute(word, random) matches Ok(next) ==> next.sized(),
{
    if m.execute(word, random) is Ok {
        let next = m.execute(word, random)->Ok_0;
        assert forall|i: int| 0 <= i < 16 implies 0 <= #[trigger] next.stack[i] <= usize::MAX by {
            // A call puts the program counter in one slot; nothing else
            // changes the stack.
            assert(next.stack[i] == m.stack[i] || next.stack[i] == m.pc);
        }
    }
}

/// After a reset and the loading of a program that fits, memory holds the
/// program from `0x200` on, and the font where the reset put it.
pub proof fn lemma_reset_then_load(m: Machine, program: Seq<u8>)
    requires
        m.memory.len() == 4096,
        program.len() <= 3232,
    ensures
        m.reset().load(program) is Ok,
        forall|i: int|
            0 <= i < program.len() ==> (#[trigger] m.reset().load(program)->Ok_0.memory[0x200 + i])
                == program[i],
        forall|j: int|
            0 <= j < 80 ==> (#[trigger] m.reset().load(program)->Ok_0.memory[0x050 + j]) == FONT@[j],
{
}

/// After `n` ticks each timer is `n` less, or zero if it held less than
/// `n`: a timer that holds `d` is zero after `d` ticks and stays zero.
/// Nothing but the timers changes.
pub proof fn lemma_ticks(m: Machine, n: nat)
    ensures
        m.ticks(n).delay_timer == if m.delay_timer >= n {
            m.delay_timer - n
        } else {
            0
        },
        m.ticks(n).sound_timer == if m.sound_timer >= n {
            m.sound_timer - n
        } else {
            0
        },
        m.ticks(n) == (Machine {
            delay_timer: m.ticks(n).delay_timer,
            sound_timer: m.ticks(n).sound_timer,
            ..m
        }),
    decreases n,
{
    if n > 0 {
        lemma_ticks(m, (n - 1) as nat);
    }
}

/// Instructions are fetched high byte first: where the byte at the program
/// counter is `1N`, the step is a jump, and it goes to the address whose
/// high four bits are `N` and whose low eight bits are the byte after it.
pub proof fn lemma_fetch_is_big_endian(m: Machine, random: u8)
    requires
        m.wf(),
        m.running,
        m.pc + 1 < 4096,
        m.memory[m.pc] / 16 == 1,
    ensures
        m.step(random) == Ok::<Machine, CpuError>(
            m.jump((m.memory[m.pc] % 16) * 256 + m.memory[m.pc + 1]),
        ),
{
}

/// Waiting for a key with no key down changes nothing: the program counter
/// stays at the waiting instruction, which the next step takes again.
pub proof fn lemma_wait_repeats(m: Machine, random: u8)
    requires
        m.wf(),
        m.running,
        m.pc + 1 < 4096,
        opcode_of(word_at(m.memory, m.pc)) == 0xF,
        nn_of(word_at(m.memory, m.pc)) == 0x0A,
        forall|key: int| !m.keys.contains(key),
    ensures
        m.step(random) == Ok::<Machine, CpuError>(m),
{
    lemma_lowest_from(m.keys, 0);
}

/// Waiting for a key with a key down puts the lowest such key in `VX` and
/// goes on to the next instruction.
pub proof fn lemma_wait_ends(m: Machine, random: u8, key: int)
    requires
        m.wf(),
        m.running,
        m.pc + 3 < 4096,
        opcode_of(word_at(m.memory, m.pc)) == 0xF,
        nn_of(word_at(m.memory, m.pc)) == 0x0A,
        m.keys.contains(key),
        forall|lower: int| 0 <= lower < key ==> !m.keys.contains(lower),
    ensures
        m.step(random) == Ok::<Machine, CpuError>(
            m.jump(m.pc + 2).set_register(x_of(word_at(m.memory, m.pc)) as int, key as u8),
        ),
{
    lemma_lowest_from(m.keys, 0);
}

/// The byte drawn matters to `CXNN` alone.
pub proof fn lemma_random_matters_to_rnd_only(m: Machine, random: u8, other: u8)
    requires
        !m.draws_random(),
    ensures
        m.step(random) == m.step(other),
{
}

} // verus!
