//! The interpreter: memory, registers, stack, timers and keypad.

mod alu;
pub mod dump;
pub mod font;
pub mod instruction;
pub mod keypad;
pub mod laws;
pub mod machine;
pub mod memory;
pub mod quirks;

use crate::gpu::Gpu;
use alu::{add_with_carry, shift_left, shift_right, subtract_with_borrow};
use font::{FONT, FONT_SPRITE_SIZE, FONT_START_ADDR};
use instruction::{nnn_of, Instruction};
use keypad::{
    lemma_none_pressed, lemma_press, lemma_release, lowest_from, lowest_key, pressed,
};
use machine::{outcome, word_at, CpuError, Machine};
use memory::copy_into;
use quirks::Quirks;
use vstd::prelude::*;

verus! {

pub const MEMORY_SIZE: usize = 4096;

pub const REGISTER_COUNT: usize = 16;

pub const STACK_SIZE: usize = 16;

/// Where programs are loaded and where execution starts.
pub const PROGRAM_START: usize = 0x200;

/// Bytes at the top of memory that a program may not occupy.
pub const RESERVED_END: usize = 352;

/// The longest program that can be loaded.
pub const PROGRAM_CAPACITY: usize = 3232;

/// Bytes in one instruction.
pub const STEP_SIZE: usize = 2;

/// A byte pair is a big-endian word.
proof fn lemma_word(hi: u8, lo: u8)
    by (bit_vector)
    ensures
        ((hi as u16) << 8) | (lo as u16) == hi * 256 + lo,
{
}

/// The interpreter. It owns the display and shows the frame through
/// `screen`.
pub struct Cpu {
    gpu: Gpu,
    memory: [u8; MEMORY_SIZE],
    registers: [u8; REGISTER_COUNT],
    address_register: usize,
    pc: usize,
    stack: [usize; STACK_SIZE],
    sp: usize,
    delay_timer: u8,
    sound_timer: u8,
    keys: u16,
    running: bool,
    redraw: bool,
    quirks: Quirks,
}

impl View for Cpu {
    type V = Machine;

    closed spec fn view(&self) -> Machine {
        Machine {
            memory: self.memory@,
            registers: self.registers@,
            address_register: self.address_register as int,
            pc: self.pc as int,
            stack: Seq::new(16, |i: int| self.stack@[i] as int),
            sp: self.sp as int,
            delay_timer: self.delay_timer,
            sound_timer: self.sound_timer,
            keys: pressed(self.keys),
            running: self.running,
            redraw: self.redraw,
            screen: self.gpu@,
            quirks: self.quirks,
        }
    }
}

impl Cpu {
    /// A machine in its initial state, drawing on `gpu`, with the classic
    /// choices where interpreters differ.
    pub fn new(gpu: Gpu) -> (cpu: Self)
        ensures
            cpu@ == Machine::initial(),
            cpu@.wf(),
    {
        Self::with_quirks(gpu, Quirks::classic())
    }

    /// A machine in its initial state, drawing on `gpu`, that behaves as
    /// `quirks` says where interpreters differ.
    pub fn with_quirks(gpu: Gpu, quirks: Quirks) -> (cpu: Self)
        ensures
            cpu@ == Machine::initial_with(quirks),
            cpu@.wf(),
    {
        let mut cpu = Self {
            gpu,
            memory: [0; MEMORY_SIZE],
            registers: [0; REGISTER_COUNT],
            address_register: 0,
            pc: PROGRAM_START,
            stack: [0; STACK_SIZE],
            sp: 0,
            delay_timer: 0,
            sound_timer: 0,
            keys: 0,
            running: true,
            redraw: false,
            quirks,
        };
        cpu.reset();
        cpu
    }

    /// How this machine behaves where interpreters differ.
    pub fn quirks(&self) -> (quirks: Quirks)
        ensures
            quirks == self@.quirks,
    {
        self.quirks
    }

    /// Clears everything but memory and the quirks, and writes the font.
    pub fn reset(&mut self)
        ensures
            final(self)@ == old(self)@.reset(),
            final(self)@.wf(),
    {
        copy_into(&mut self.memory, FONT_START_ADDR, &FONT);
        self.gpu.clear();
        self.registers = [0; REGISTER_COUNT];
        self.address_register = 0;
        self.pc = PROGRAM_START;
        self.stack = [0; STACK_SIZE];
        self.sp = 0;
        self.delay_timer = 0;
        self.sound_timer = 0;
        self.keys = 0;
        self.running = true;
        self.redraw = false;
        proof {
            lemma_none_pressed();
            self.gpu.lemma_size();
        }
    }

    /// Register `V<idx>`.
    pub fn register(&self, idx: usize) -> (value: u8)
        requires
            idx < 16,
        ensures
            value == self@.registers[idx as int],
    {
        self.registers[idx]
    }

    /// All sixteen registers, `V0` first.
    pub fn registers(&self) -> (values: &[u8])
        ensures
            values@ == self@.registers,
    {
        &self.registers
    }

    /// Copies `program_bytes` to the load address, unless it is longer than
    /// `PROGRAM_CAPACITY`.
    pub fn load(&mut self, program_bytes: &[u8]) -> (result: Result<(), CpuError>)
        requires
            old(self)@.wf(),
        ensures
            outcome(old(self)@, old(self)@.load(program_bytes@), final(self)@, result),
            final(self)@.wf(),
    {
        if program_bytes.len() > PROGRAM_CAPACITY {
            return Err(CpuError::ProgramTooLarge);
        }
        copy_into(&mut self.memory, PROGRAM_START, program_bytes);
        Ok(())
    }

    /// The address of the next instruction.
    pub fn pc(&self) -> (pc: usize)
        ensures
            pc == self@.pc,
    {
        self.pc
    }

    /// The number of return addresses on the stack.
    pub fn sp(&self) -> (sp: usize)
        ensures
            sp == self@.sp,
    {
        self.sp
    }

    /// The address register `I`.
    pub fn address_register(&self) -> (address: usize)
        ensures
            address == self@.address_register,
    {
        self.address_register
    }

    pub fn delay_timer(&self) -> (timer: u8)
        ensures
            timer == self@.delay_timer,
    {
        self.delay_timer
    }

    pub fn sound_timer(&self) -> (timer: u8)
        ensures
            timer == self@.sound_timer,
    {
        self.sound_timer
    }

    /// All of memory.
    pub fn memory(&self) -> (bytes: &[u8])
        ensures
            bytes@ == self@.memory,
    {
        &self.memory
    }

    /// The sixteen stack slots, used or not.
    pub fn stack(&self) -> (slots: &[usize])
        ensures
            slots@.len() == 16,
            forall|i: int| 0 <= i < 16 ==> slots@[i] == self@.stack[i],
    {
        &self.stack
    }

    /// Whether the machine still steps: true until the exit instruction.
    pub fn running(&self) -> (running: bool)
        ensures
            running == self@.running,
    {
        self.running
    }

    /// Whether the frame changed since the flag was last cleared.
    pub fn redraw(&self) -> (redraw: bool)
        ensures
            redraw == self@.redraw,
    {
        self.redraw
    }

    /// Clears the redraw flag, once the frame has been shown.
    pub fn clear_redraw(&mut self)
        requires
            old(self)@.wf(),
        ensures
            final(self)@ == (Machine { redraw: false, ..old(self)@ }),
            final(self)@.wf(),
    {
        self.redraw = false;
    }

    /// The big-endian word at `addr`.
    pub fn read16(&self, addr: usize) -> (word: u16)
        requires
            addr + 1 < 4096,
        ensures
            word == word_at(self@.memory, addr as int),
    {
        let hi = self.memory[addr];
        let lo = self.memory[addr + 1];
        proof {
            lemma_word(hi, lo);
        }
        ((hi as u16) << 8) | (lo as u16)
    }

    /// The frame, 2048 pixels in row-major order.
    pub fn screen(&self) -> (pixels: &[bool])
        ensures
            pixels@ == self@.screen,
    {
        self.gpu.screen()
    }

    /// Counts both timers down by one, stopping at zero.
    pub fn tick_timers(&mut self)
        requires
            old(self)@.wf(),
        ensures
            final(self)@ == old(self)@.tick(),
            final(self)@.wf(),
    {
        if self.delay_timer > 0 {
            self.delay_timer -= 1;
        }
        if self.sound_timer > 0 {
            self.sound_timer -= 1;
        }
    }

    /// Whether `key` is down. No key above `0xF` ever is.
    pub fn is_key_pressed(&self, key: u8) -> (down: bool)
        ensures
            down == self@.keys.contains(key as int),
    {
        key < 16 && (self.keys >> (key as u16)) & 1 == 1
    }

    /// The lowest key that is down, all sixteen keys considered.
    pub fn get_active_key(&self) -> (key: Option<u8>)
        ensures
            key == lowest_key(self@.keys),
            match key {
                Some(k) => self@.keys.contains(k as int) && forall|lower: int|
                    0 <= lower < k ==> !self@.keys.contains(lower),
                None => forall|any: int| !self@.keys.contains(any),
            },
    {
        let mut i: u8 = 0;
        while i < 16
            invariant
                i <= 16,
                lowest_key(self@.keys) == lowest_from(self@.keys, i as int),
                forall|lower: int| 0 <= lower < i ==> !self@.keys.contains(lower),
            decreases 16 - i,
        {
            if self.is_key_pressed(i) {
                return Some(i);
            }
            i += 1;
        }
        None
    }

    /// Records that `key` went down or came up.
    pub fn set_key(&mut self, key: u8, pressed: bool)
        requires
            old(self)@.wf(),
            key < 16,
        ensures
            final(self)@ == old(self)@.set_key(key as int, pressed),
            final(self)@.wf(),
    {
        let mask = 1u16 << (key as u16);
        proof {
            lemma_press(self.keys, key as u16);
            lemma_release(self.keys, key as u16);
        }
        if pressed {
            self.keys |= mask;
        } else {
            self.keys &= !mask;
        }
    }

    /// Moves the program counter to `target`, unless that lies outside
    /// memory.
    fn jump_to(&mut self, target: usize) -> (result: Result<(), CpuError>)
        requires
            old(self)@.wf(),
        ensures
            outcome(
                old(self)@,
                Machine::checked(Ok(old(self)@.jump(target as int))),
                final(self)@,
                result,
            ),
            final(self)@.wf(),
    {
        if target >= MEMORY_SIZE {
            return Err(CpuError::ProgramCounterOutOfRange);
        }
        self.pc = target;
        Ok(())
    }

    /// Moves the program counter to `next`, or past the instruction at
    /// `next` if `condition` holds, unless that lies outside memory.
    fn skip_if(&mut self, condition: bool, next: usize) -> (result: Result<(), CpuError>)
        requires
            old(self)@.wf(),
            next <= 4097,
        ensures
            outcome(
                old(self)@,
                Machine::checked(Ok(old(self)@.jump(next as int).skip_if(condition))),
                final(self)@,
                result,
            ),
            final(self)@.wf(),
    {
        self.jump_to(
            if condition {
                next + STEP_SIZE
            } else {
                next
            },
        )
    }

    /// Writes `value` to register `x` and moves the program counter to
    /// `target`, unless that lies outside memory.
    fn write_register(&mut self, x: usize, value: u8, target: usize) -> (result: Result<
        (),
        CpuError,
    >)
        requires
            old(self)@.wf(),
            x < 16,
        ensures
            outcome(
                old(self)@,
                Machine::checked(Ok(old(self)@.jump(target as int).set_register(x as int, value))),
                final(self)@,
                result,
            ),
            final(self)@.wf(),
    {
        if target >= MEMORY_SIZE {
            return Err(CpuError::ProgramCounterOutOfRange);
        }
        self.registers[x] = value;
        self.pc = target;
        Ok(())
    }

    /// Writes two registers, `first` before `second`, and moves the program
    /// counter to `target`, unless that lies outside memory.
    fn write_registers(
        &mut self,
        first: usize,
        first_value: u8,
        second: usize,
        second_value: u8,
        target: usize,
    ) -> (result: Result<(), CpuError>)
        requires
            old(self)@.wf(),
            first < 16,
            second < 16,
        ensures
            outcome(
                old(self)@,
                Machine::checked(
                    Ok(
                        old(self)@.jump(target as int).set_register(
                            first as int,
                            first_value,
                        ).set_register(second as int, second_value),
                    ),
                ),
                final(self)@,
                result,
            ),
            final(self)@.wf(),
    {
        if target >= MEMORY_SIZE {
            return Err(CpuError::ProgramCounterOutOfRange);
        }
        self.registers[first] = first_value;
        self.registers[second] = second_value;
        self.pc = target;
        Ok(())
    }

    /// Sets the address register and moves the program counter to
    /// `target`, unless that lies outside memory.
    fn set_address(&mut self, address: usize, target: usize) -> (result: Result<(), CpuError>)
        requires
            old(self)@.wf(),
        ensures
            outcome(
                old(self)@,
                Machine::checked(
                    Ok(Machine { address_register: address as int, ..old(self)@.jump(target as int) }),
                ),
                final(self)@,
                result,
            ),
            final(self)@.wf(),
    {
        if target >= MEMORY_SIZE {
            return Err(CpuError::ProgramCounterOutOfRange);
        }
        self.address_register = address;
        self.pc = target;
        Ok(())
    }

    /// Pushes `value` on the stack.
    fn stack_push(&mut self, value: usize)
        requires
            old(self)@.wf(),
            old(self)@.sp < 16,
        ensures
            final(self)@ == (Machine {
                stack: old(self)@.stack.update(old(self)@.sp, value as int),
                sp: old(self)@.sp + 1,
                ..old(self)@
            }),
            final(self)@.wf(),
    {
        self.stack[self.sp] = value;
        self.sp += 1;
    }

    /// Takes the top value off the stack.
    fn stack_pop(&mut self) -> (value: usize)
        requires
            old(self)@.wf(),
            old(self)@.sp > 0,
        ensures
            final(self)@ == (Machine { sp: old(self)@.sp - 1, ..old(self)@ }),
            value == old(self)@.stack[old(self)@.sp - 1],
            final(self)@.wf(),
    {
        self.sp -= 1;
        self.stack[self.sp]
    }

    /// `0NNN`.
    fn system(&mut self, instruction: &Instruction, next: usize) -> (result: Result<(), CpuError>)
        requires
            old(self)@.wf(),
            next == old(self)@.pc + 2,
        ensures
            outcome(
                old(self)@,
                Machine::checked(old(self)@.jump(next as int).system(instruction@)),
                final(self)@,
                result,
            ),
            final(self)@.wf(),
    {
        let nnn = instruction.nnn();
        if nnn == 0x0E0 {
            if next >= MEMORY_SIZE {
                return Err(CpuError::ProgramCounterOutOfRange);
            }
            self.gpu.clear();
            self.redraw = true;
            self.pc = next;
            Ok(())
        } else if nnn == 0x0EE {
            if self.sp == 0 {
                return Err(CpuError::StackUnderflow);
            }
            if self.stack[self.sp - 1] >= MEMORY_SIZE {
                return Err(CpuError::ProgramCounterOutOfRange);
            }
            let return_addr = self.stack_pop();
            self.pc = return_addr;
            Ok(())
        } else if instruction.x() == 0xF {
            if next >= MEMORY_SIZE {
                return Err(CpuError::ProgramCounterOutOfRange);
            }
            self.running = false;
            self.pc = next;
            Ok(())
        } else {
            Err(CpuError::UnknownInstruction)
        }
    }

    /// `2NNN`.
    fn call(&mut self, instruction: &Instruction, next: usize) -> (result: Result<(), CpuError>)
        requires
            old(self)@.wf(),
            next == old(self)@.pc + 2,
        ensures
            outcome(
                old(self)@,
                Machine::checked(
                    old(self)@.jump(next as int).call(nnn_of(instruction@) as int),
                ),
                final(self)@,
                result,
            ),
            final(self)@.wf(),
    {
        if self.sp >= STACK_SIZE {
            return Err(CpuError::StackOverflow);
        }
        self.stack_push(next);
        self.pc = instruction.nnn() as usize;
        Ok(())
    }

    /// `8XYN`.
    fn arithmetic(&mut self, instruction: &Instruction, next: usize) -> (result: Result<
        (),
        CpuError,
    >)
        requires
            old(self)@.wf(),
            next == old(self)@.pc + 2,
        ensures
            outcome(
                old(self)@,
                Machine::checked(old(self)@.jump(next as int).arithmetic(instruction@)),
                final(self)@,
                result,
            ),
            final(self)@.wf(),
    {
        let x = instruction.x() as usize;
        let x_val = self.registers[x];
        let y_val = self.registers[instruction.y() as usize];
        let operand = if self.quirks.shift_in_place {
            x_val
        } else {
            y_val
        };
        match instruction.n() {
            0x0 => self.write_register(x, y_val, next),
            0x1 => self.write_register(x, x_val | y_val, next),
            0x2 => self.write_register(x, x_val & y_val, next),
            0x3 => self.write_register(x, x_val ^ y_val, next),
            0x4 => {
                let (sum, carry) = add_with_carry(x_val, y_val);
                self.write_registers(x, sum, 0xF, carry, next)
            },
            0x5 => {
                let (difference, no_borrow) = subtract_with_borrow(x_val, y_val);
                self.write_registers(x, difference, 0xF, no_borrow, next)
            },
            0x6 => {
                let (shifted, out) = shift_right(operand);
                self.write_registers(0xF, out, x, shifted, next)
            },
            0x7 => {
                let (difference, no_borrow) = subtract_with_borrow(y_val, x_val);
                self.write_registers(x, difference, 0xF, no_borrow, next)
            },
            0xE => {
                let (shifted, out) = shift_left(operand);
                self.write_registers(0xF, out, x, shifted, next)
            },
            _ => Err(CpuError::UnknownInstruction),
        }
    }

    /// `DXYN`.
    fn draw(&mut self, instruction: &Instruction, next: usize) -> (result: Result<(), CpuError>)
        requires
            old(self)@.wf(),
            next == old(self)@.pc + 2,
        ensures
            outcome(
                old(self)@,
                Machine::checked(old(self)@.jump(next as int).draw(instruction@)),
                final(self)@,
                result,
            ),
            final(self)@.wf(),
    {
        let x = self.registers[instruction.x() as usize];
        let y = self.registers[instruction.y() as usize];
        let size = instruction.n() as usize;
        let start = self.address_register;
        if start > MEMORY_SIZE - size {
            return Err(CpuError::MemoryOutOfRange);
        }
        if next >= MEMORY_SIZE {
            return Err(CpuError::ProgramCounterOutOfRange);
        }
        let sprite = &self.memory[start..start + size];
        let hit = if self.quirks.clip_sprites {
            self.gpu.draw_sprite_clipped(x as usize, y as usize, sprite)
        } else {
            self.gpu.draw_sprite(x as usize, y as usize, sprite)
        };
        self.registers[0xF] = if hit {
            1
        } else {
            0
        };
        self.redraw = true;
        self.pc = next;
        proof {
            self.gpu.lemma_size();
        }
        Ok(())
    }

    /// `EX9E` and `EXA1`.
    fn skip_on_key(&mut self, instruction: &Instruction, next: usize) -> (result: Result<
        (),
        CpuError,
    >)
        requires
            old(self)@.wf(),
            next == old(self)@.pc + 2,
        ensures
            outcome(
                old(self)@,
                Machine::checked(old(self)@.jump(next as int).skip_on_key(instruction@)),
                final(self)@,
                result,
            ),
            final(self)@.wf(),
    {
        let key = self.registers[instruction.x() as usize];
        let pressed = self.is_key_pressed(key);
        let nn = instruction.nn();
        if nn == 0x9E {
            self.skip_if(pressed, next)
        } else if nn == 0xA1 {
            self.skip_if(!pressed, next)
        } else {
            Err(CpuError::UnknownInstruction)
        }
    }

    /// `FXNN`.
    fn misc(&mut self, instruction: &Instruction, next: usize) -> (result: Result<(), CpuError>)
        requires
            old(self)@.wf(),
            next == old(self)@.pc + 2,
        ensures
            outcome(
                old(self)@,
                Machine::checked(old(self)@.jump(next as int).misc(instruction@)),
                final(self)@,
                result,
            ),
            final(self)@.wf(),
    {
        let x = instruction.x() as usize;
        let x_val = self.registers[x];
        let nn = instruction.nn();
        if nn == 0x07 {
            return self.write_register(x, self.delay_timer, next);
        }
        if nn == 0x0A {
            return match self.get_active_key() {
                Some(key) => self.write_register(x, key, next),
                None => Ok(()),
            };
        }
        let store_idx = self.address_register;
        let in_range = nn == 0x33 && store_idx < MEMORY_SIZE - 2 || (nn == 0x55 || nn == 0x65)
            && store_idx < MEMORY_SIZE - x;
        if (nn == 0x33 || nn == 0x55 || nn == 0x65) && !in_range {
            return Err(CpuError::MemoryOutOfRange);
        }
        if !(nn == 0x15 || nn == 0x18 || nn == 0x1E || nn == 0x29 || nn == 0x33 || nn == 0x55 || nn
            == 0x65) {
            return Err(CpuError::UnknownInstruction);
        }
        if next >= MEMORY_SIZE {
            return Err(CpuError::ProgramCounterOutOfRange);
        }
        if nn == 0x15 {
            self.delay_timer = x_val;
        } else if nn == 0x18 {
            self.sound_timer = x_val;
        } else if nn == 0x1E {
            self.address_register = store_idx.wrapping_add(x_val as usize);
        } else if nn == 0x29 {
            self.address_register = FONT_START_ADDR + x_val as usize * FONT_SPRITE_SIZE;
        } else if nn == 0x33 {
            self.memory[store_idx] = x_val / 100;
            self.memory[store_idx + 1] = (x_val / 10) % 10;
            self.memory[store_idx + 2] = x_val % 10;
        } else if nn == 0x55 {
            copy_into(&mut self.memory, store_idx, &self.registers[0..x + 1]);
            if !self.quirks.keep_index {
                self.address_register = store_idx + x + 1;
            }
        } else {
            copy_into(&mut self.registers, 0, &self.memory[store_idx..store_idx + x + 1]);
            if !self.quirks.keep_index {
                self.address_register = store_idx + x + 1;
            }
        }
        self.pc = next;
        Ok(())
    }

    /// Executes the instruction at the program counter, which
    /// `instruction` holds. `random` is the byte that `CXNN` draws.
    fn decode(&mut self, instruction: &Instruction, random: u8) -> (result: Result<(), CpuError>)
        requires
            old(self)@.wf(),
        ensures
            outcome(
                old(self)@,
                Machine::checked(
                    old(self)@.jump(old(self)@.pc + 2).execute(instruction@, random),
                ),
                final(self)@,
                result,
            ),
            final(self)@.wf(),
    {
        let next = self.pc + STEP_SIZE;
        let x = instruction.x() as usize;
        let x_val = self.registers[x];
        let y_val = self.registers[instruction.y() as usize];
        let nn = instruction.nn();
        match instruction.opcode() {
            0x0 => self.system(instruction, next),
            0x1 => self.jump_to(instruction.nnn() as usize),
            0x2 => self.call(instruction, next),
            0x3 => self.skip_if(x_val == nn, next),
            0x4 => self.skip_if(x_val != nn, next),
            0x5 => if instruction.n() == 0 {
                self.skip_if(x_val == y_val, next)
            } else {
                Err(CpuError::UnknownInstruction)
            },
            0x6 => self.write_register(x, nn, next),
            0x7 => self.write_register(x, x_val.wrapping_add(nn), next),
            0x8 => self.arithmetic(instruction, next),
            0x9 => if instruction.n() == 0 {
                self.skip_if(x_val != y_val, next)
            } else {
                Err(CpuError::UnknownInstruction)
            },
            0xA => self.set_address(instruction.nnn() as usize, next),
            0xB => self.jump_to(instruction.nnn() as usize + self.registers[0] as usize),
            0xC => self.write_register(x, random & nn, next),
            0xD => self.draw(instruction, next),
            0xE => self.skip_on_key(instruction, next),
            _ => self.misc(instruction, next),
        }
    }

    /// One fetch-decode-execute cycle in which `CXNN`, if it is executed,
    /// draws `random`. A step that fails leaves the machine as it was.
    pub fn step_with(&mut self, random: u8) -> (result: Result<(), CpuError>)
        requires
            old(self)@.wf(),
        ensures
            outcome(old(self)@, old(self)@.step(random), final(self)@, result),
            final(self)@.wf(),
            0 <= final(self)@.pc < 4096,
            0 <= final(self)@.sp <= 16,
    {
        if !self.running {
            return Ok(());
        }
        if self.pc + 1 >= MEMORY_SIZE {
            return Err(CpuError::MemoryOutOfRange);
        }
        let instr = Instruction::new(self.read16(self.pc));
        self.decode(&instr, random)
    }

    /// One fetch-decode-execute cycle. `CXNN` draws its byte from the
    /// thread's random number generator; of every other instruction the
    /// outcome is fixed. A step that fails leaves the machine as it was.
    pub fn step(&mut self) -> (result: Result<(), CpuError>)
        requires
            old(self)@.wf(),
        ensures
            exists|random: u8|
                outcome(old(self)@, #[trigger] old(self)@.step(random), final(self)@, result),
            !old(self)@.draws_random() ==> outcome(
                old(self)@,
                old(self)@.step(0),
                final(self)@,
                result,
            ),
            final(self)@.wf(),
            0 <= final(self)@.pc < 4096,
            0 <= final(self)@.sp <= 16,
    {
        let random = if self.running && self.pc + 1 < MEMORY_SIZE && Instruction::new(
            self.read16(self.pc),
        ).opcode() == 0xC {
            random_byte()
        } else {
            0
        };
        self.step_with(random)
    }
}

/// A byte from `rand::thread_rng()`, drawn with `Rng::gen`. Nothing is
/// claimed of the byte: the generator is seeded by the operating system
/// and promises only that every value is as likely as any other. The
/// generator panics if the operating system cannot seed it.
#[verifier::external_body]
fn random_byte() -> (byte: u8) {
    rand::Rng::gen(&mut rand::thread_rng())
}

} // verus!
