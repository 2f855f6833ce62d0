//! The machine as a mathematical value, and what each operation makes of it.

use super::font::with_font;
use super::instruction::{n_of, nn_of, nnn_of, opcode_of, x_of, y_of};
use super::keypad::lowest_key;
use super::memory::overlay;
use super::quirks::Quirks;
use crate::gpu::{blank, clipped, drawn, erases};
use vstd::prelude::*;

verus! {

/// Why a program cannot be loaded or a step cannot be taken.
#[derive(Clone, Copy, Debug, PartialEq, Eq, Structural)]
pub enum CpuError {
    /// The program does not fit between the load address and the reserved
    /// tail of memory.
    ProgramTooLarge,
    /// The step would leave the program counter outside memory.
    ProgramCounterOutOfRange,
    /// The instruction word is none of the instruction set.
    UnknownInstruction,
    /// A call with all sixteen stack slots in use.
    StackOverflow,
    /// A return with no call to return from.
    StackUnderflow,
    /// The instruction, or an operand of it, lies partly outside memory.
    MemoryOutOfRange,
}

/// The whole state of the machine.
#[verifier::ext_equal]
pub struct Machine {
    /// 4096 bytes.
    pub memory: Seq<u8>,
    /// `V0` to `VF`.
    pub registers: Seq<u8>,
    /// The address register `I`.
    pub address_register: int,
    /// The address of the next instruction.
    pub pc: int,
    /// Sixteen return addresses, of which the first `sp` are in use.
    pub stack: Seq<int>,
    /// The number of return addresses on the stack.
    pub sp: int,
    pub delay_timer: u8,
    pub sound_timer: u8,
    /// The keys that are down.
    pub keys: Set<int>,
    /// Cleared by the exit instruction; a machine that is not running does
    /// not step.
    pub running: bool,
    /// Set by each instruction that changes the frame.
    pub redraw: bool,
    /// The frame, 2048 pixels in row-major order.
    pub screen: Seq<bool>,
    /// How the instructions on which interpreters differ behave. Nothing
    /// changes it.
    pub quirks: Quirks,
}

/// The big-endian 16-bit word whose high byte is at `addr`.
pub open spec fn word_at(memory: Seq<u8>, addr: int) -> u16 {
    (memory[addr] * 256 + memory[addr + 1]) as u16
}

/// An address sum as the address register holds it: reduced modulo the
/// machine word.
pub open spec fn wrapped(sum: int) -> int {
    if sum > usize::MAX {
        sum - usize::MAX - 1
    } else {
        sum
    }
}

/// One for a flag that is raised, zero for one that is not.
pub open spec fn flag(raised: bool) -> u8 {
    if raised {
        1
    } else {
        0
    }
}

/// What came of an operation that either changes the machine or fails and
/// leaves it alone: `after` and `result` are as `expected` says of `before`.
pub open spec fn outcome(
    before: Machine,
    expected: Result<Machine, CpuError>,
    after: Machine,
    result: Result<(), CpuError>,
) -> bool {
    match expected {
        Ok(next) => result is Ok && after == next,
        Err(e) => result == Err::<(), CpuError>(e) && after == before,
    }
}

impl Machine {
    /// The sizes and ranges that every machine keeps, but for that of the
    /// program counter.
    pub open spec fn sized(self) -> bool {
        &&& self.memory.len() == 4096
        &&& self.registers.len() == 16
        &&& self.stack.len() == 16
        &&& self.screen.len() == 2048
        &&& 0 <= self.sp <= 16
        &&& 0 <= self.address_register <= usize::MAX
        &&& forall|i: int| 0 <= i < 16 ==> 0 <= #[trigger] self.stack[i] <= usize::MAX
        &&& forall|key: int| self.keys.contains(key) ==> 0 <= key < 16
    }

    /// The sizes and ranges that every machine keeps: among them, the
    /// program counter lies inside memory and the stack holds at most
    /// sixteen addresses.
    pub open spec fn wf(self) -> bool {
        &&& self.sized()
        &&& 0 <= self.pc < 4096
    }

    /// The machine after a reset: the font in place, the rest of memory and
    /// the quirks as they were, everything else cleared, the program counter
    /// at the load address.
    pub open spec fn reset(self) -> Machine {
        Machine {
            memory: with_font(self.memory),
            registers: Seq::new(16, |i: int| 0u8),
            address_register: 0,
            pc: 0x200,
            stack: Seq::new(16, |i: int| 0int),
            sp: 0,
            delay_timer: 0,
            sound_timer: 0,
            keys: Set::empty(),
            running: true,
            redraw: false,
            screen: blank(),
            quirks: self.quirks,
        }
    }

    /// The machine as it is made with `quirks`: a reset machine whose
    /// memory, but for the font, is zero.
    pub open spec fn initial_with(quirks: Quirks) -> Machine {
        Machine {
            memory: with_font(Seq::new(4096, |a: int| 0u8)),
            registers: Seq::new(16, |i: int| 0u8),
            address_register: 0,
            pc: 0x200,
            stack: Seq::new(16, |i: int| 0int),
            sp: 0,
            delay_timer: 0,
            sound_timer: 0,
            keys: Set::empty(),
            running: true,
            redraw: false,
            screen: blank(),
            quirks,
        }
    }

    /// The machine as it is made with the classic choices.
    pub open spec fn initial() -> Machine {
        Self::initial_with(Quirks::classic_choices())
    }

    /// The machine with `program` copied to the load address `0x200`. A
    /// program of more than 3232 bytes would reach the last 352 bytes of
    /// memory, which are kept free, and is refused.
    pub open spec fn load(self, program: Seq<u8>) -> Result<Machine, CpuError> {
        if program.len() > 3232 {
            Err(CpuError::ProgramTooLarge)
        } else {
            Ok(
                Machine { memory: overlay(self.memory, 0x200, program), ..self },
            )
        }
    }

    /// The machine after one tick of the 60 Hz clock: each timer that is not
    /// zero is one less.
    pub open spec fn tick(self) -> Machine {
        Machine {
            delay_timer: if self.delay_timer > 0 {
                (self.delay_timer - 1) as u8
            } else {
                0
            },
            sound_timer: if self.sound_timer > 0 {
                (self.sound_timer - 1) as u8
            } else {
                0
            },
            ..self
        }
    }

    /// The machine after `n` ticks.
    pub open spec fn ticks(self, n: nat) -> Machine
        decreases n,
    {
        if n == 0 {
            self
        } else {
            self.ticks((n - 1) as nat).tick()
        }
    }

    /// The machine with `key` down or up.
    pub open spec fn set_key(self, key: int, down: bool) -> Machine {
        Machine {
            keys: if down {
                self.keys.insert(key)
            } else {
                self.keys.remove(key)
            },
            ..self
        }
    }

    /// The machine with register `x` holding `value`.
    pub open spec fn set_register(self, x: int, value: u8) -> Machine {
        Machine { registers: self.registers.update(x, value), ..self }
    }

    /// The machine with the program counter at `target`.
    pub open spec fn jump(self, target: int) -> Machine {
        Machine { pc: target, ..self }
    }

    /// The machine with the next instruction skipped if `condition` holds.
    pub open spec fn skip_if(self, condition: bool) -> Machine {
        if condition {
            self.jump(self.pc + 2)
        } else {
            self
        }
    }

    /// `2NNN`: push the program counter and jump.
    pub open spec fn call(self, target: int) -> Result<Machine, CpuError> {
        if self.sp >= 16 {
            Err(CpuError::StackOverflow)
        } else {
            Ok(Machine { stack: self.stack.update(self.sp, self.pc), sp: self.sp + 1, pc: target, ..self })
        }
    }

    /// `00EE`: pop the program counter.
    pub open spec fn ret(self) -> Result<Machine, CpuError> {
        if self.sp <= 0 {
            Err(CpuError::StackUnderflow)
        } else {
            Ok(Machine { sp: self.sp - 1, pc: self.stack[self.sp - 1], ..self })
        }
    }

    /// `0NNN`: clear the frame, return, or stop the machine.
    pub open spec fn system(self, word: u16) -> Result<Machine, CpuError> {
        if nnn_of(word) == 0x0E0 {
            Ok(Machine { screen: blank(), redraw: true, ..self })
        } else if nnn_of(word) == 0x0EE {
            self.ret()
        } else if x_of(word) == 0xF {
            Ok(Machine { running: false, ..self })
        } else {
            Err(CpuError::UnknownInstruction)
        }
    }

    /// `8XYN`: register-to-register arithmetic. Sums and differences are
    /// taken modulo 256. An instruction that sets the flag writes `VX`
    /// first and `VF` after it, but for the shifts, which write `VF` first.
    /// The shifts take their operand from `VY`, or from `VX` where the
    /// machine shifts in place.
    pub open spec fn arithmetic(self, word: u16) -> Result<Machine, CpuError> {
        let x = x_of(word) as int;
        let vx = self.registers[x];
        let vy = self.registers[y_of(word) as int];
        let shifted = if self.quirks.shift_in_place {
            vx
        } else {
            vy
        };
        match n_of(word) {
            0x0 => Ok(self.set_register(x, vy)),
            0x1 => Ok(self.set_register(x, vx | vy)),
            0x2 => Ok(self.set_register(x, vx & vy)),
            0x3 => Ok(self.set_register(x, vx ^ vy)),
            0x4 => Ok(
                self.set_register(x, ((vx + vy) % 256) as u8).set_register(
                    0xF,
                    flag(vx + vy >= 256),
                ),
            ),
            0x5 => Ok(
                self.set_register(x, ((vx - vy) % 256) as u8).set_register(0xF, flag(vx >= vy)),
            ),
            0x6 => Ok(self.set_register(0xF, shifted % 2).set_register(x, shifted / 2)),
            0x7 => Ok(
                self.set_register(x, ((vy - vx) % 256) as u8).set_register(0xF, flag(vy >= vx)),
            ),
            0xE => Ok(
                self.set_register(0xF, shifted / 128).set_register(x, ((shifted * 2) % 256) as u8),
            ),
            _ => Err(CpuError::UnknownInstruction),
        }
    }

    /// The sprite that `DXYN` draws at `(x, y)` from the bytes `sprite`: all
    /// of them, or what lies on the screen where the machine clips.
    pub open spec fn shown(self, sprite: Seq<u8>, x: int, y: int) -> Seq<u8> {
        if self.quirks.clip_sprites {
            clipped(sprite, x, y)
        } else {
            sprite
        }
    }

    /// `DXYN`: draw the `N` bytes at `I` as a sprite at `(VX, VY)`, and set
    /// `VF` to whether a pixel was erased.
    pub open spec fn draw(self, word: u16) -> Result<Machine, CpuError> {
        let i = self.address_register;
        let n = n_of(word) as int;
        let vx = self.registers[x_of(word) as int] as int;
        let vy = self.registers[y_of(word) as int] as int;
        if i + n > 4096 {
            Err(CpuError::MemoryOutOfRange)
        } else {
            let sprite = self.shown(self.memory.subrange(i, i + n), vx, vy);
            Ok(
                Machine {
                    screen: drawn(self.screen, sprite, vx, vy, sprite.len() as int),
                    registers: self.registers.update(0xF, flag(erases(self.screen, sprite, vx, vy))),
                    redraw: true,
                    ..self
                },
            )
        }
    }

    /// `EX9E` and `EXA1`: skip if key `VX` is down, or if it is not.
    pub open spec fn skip_on_key(self, word: u16) -> Result<Machine, CpuError> {
        let down = self.keys.contains(self.registers[x_of(word) as int] as int);
        if nn_of(word) == 0x9E {
            Ok(self.skip_if(down))
        } else if nn_of(word) == 0xA1 {
            Ok(self.skip_if(!down))
        } else {
            Err(CpuError::UnknownInstruction)
        }
    }

    /// `FX0A`: wait for a key. With a key down, `VX` receives the lowest
    /// such key. With none down the program counter goes back to this
    /// instruction, which the next step takes again.
    pub open spec fn wait_for_key(self, x: int) -> Machine {
        match lowest_key(self.keys) {
            Some(key) => self.set_register(x, key),
            None => self.jump(self.pc - 2),
        }
    }

    /// `FX33`: the three decimal digits of `value` at `I`, `I + 1`, `I + 2`.
    pub open spec fn store_decimal(self, value: u8) -> Result<Machine, CpuError> {
        let i = self.address_register;
        if i + 2 >= 4096 {
            Err(CpuError::MemoryOutOfRange)
        } else {
            Ok(
                Machine {
                    memory: self.memory.update(i, value / 100).update(
                        i + 1,
                        (value / 10) % 10,
                    ).update(i + 2, value % 10),
                    ..self
                },
            )
        }
    }

    /// The address register after `count` bytes were copied from or to
    /// `I`: past them, or where it was if the machine keeps it.
    pub open spec fn index_after(self, count: int) -> int {
        if self.quirks.keep_index {
            self.address_register
        } else {
            self.address_register + count
        }
    }

    /// `FX55`: `V0` to `VX` to memory from `I` on; `I` moves past them.
    pub open spec fn store_registers(self, x: int) -> Result<Machine, CpuError> {
        let i = self.address_register;
        if i + x >= 4096 {
            Err(CpuError::MemoryOutOfRange)
        } else {
            Ok(
                Machine {
                    memory: overlay(self.memory, i, self.registers.subrange(0, x + 1)),
                    address_register: self.index_after(x + 1),
                    ..self
                },
            )
        }
    }

    /// `FX65`: `V0` to `VX` from memory from `I` on; `I` moves past them.
    pub open spec fn load_registers(self, x: int) -> Result<Machine, CpuError> {
        let i = self.address_register;
        if i + x >= 4096 {
            Err(CpuError::MemoryOutOfRange)
        } else {
            Ok(
                Machine {
                    registers: overlay(self.registers, 0, self.memory.subrange(i, i + x + 1)),
                    address_register: self.index_after(x + 1),
                    ..self
                },
            )
        }
    }

    /// `FXNN`: timers, the address register, and transfers between
    /// registers and memory. The glyph address of `FX29` is taken from all
    /// of `VX`.
    pub open spec fn misc(self, word: u16) -> Result<Machine, CpuError> {
        let x = x_of(word) as int;
        let vx = self.registers[x];
        match nn_of(word) {
            0x07 => Ok(self.set_register(x, self.delay_timer)),
            0x0A => Ok(self.wait_for_key(x)),
            0x15 => Ok(Machine { delay_timer: vx, ..self }),
            0x18 => Ok(Machine { sound_timer: vx, ..self }),
            0x1E => Ok(Machine { address_register: wrapped(self.address_register + vx), ..self }),
            0x29 => Ok(Machine { address_register: 0x050 + 5 * vx, ..self }),
            0x33 => self.store_decimal(vx),
            0x55 => self.store_registers(x),
            0x65 => self.load_registers(x),
            _ => Err(CpuError::UnknownInstruction),
        }
    }

    /// What the instruction `word` makes of the machine, whose program
    /// counter is already past the instruction. `random` is the byte that
    /// `CXNN` draws.
    pub open spec fn execute(self, word: u16, random: u8) -> Result<Machine, CpuError> {
        let x = x_of(word) as int;
        let nn = nn_of(word);
        let nnn = nnn_of(word) as int;
        let vx = self.registers[x];
        let vy = self.registers[y_of(word) as int];
        match opcode_of(word) {
            0x0 => self.system(word),
            0x1 => Ok(self.jump(nnn)),
            0x2 => self.call(nnn),
            0x3 => Ok(self.skip_if(vx == nn)),
            0x4 => Ok(self.skip_if(vx != nn)),
            0x5 => if n_of(word) == 0 {
                Ok(self.skip_if(vx == vy))
            } else {
                Err(CpuError::UnknownInstruction)
            },
            0x6 => Ok(self.set_register(x, nn)),
            0x7 => Ok(self.set_register(x, ((vx + nn) % 256) as u8)),
            0x8 => self.arithmetic(word),
            0x9 => if n_of(word) == 0 {
                Ok(self.skip_if(vx != vy))
            } else {
                Err(CpuError::UnknownInstruction)
            },
            0xA => Ok(Machine { address_register: nnn, ..self }),
            0xB => Ok(self.jump(nnn + self.registers[0])),
            0xC => Ok(self.set_register(x, random & nn)),
            0xD => self.draw(word),
            0xE => self.skip_on_key(word),
            _ => self.misc(word),
        }
    }

    /// The result of an instruction, refused where it leaves the program
    /// counter outside memory.
    pub open spec fn checked(result: Result<Machine, CpuError>) -> Result<Machine, CpuError> {
        match result {
            Ok(next) => if 0 <= next.pc < 4096 {
                Ok(next)
            } else {
                Err(CpuError::ProgramCounterOutOfRange)
            },
            Err(e) => Err(e),
        }
    }

    /// Whether the next step executes `CXNN` and so draws a random byte.
    pub open spec fn draws_random(self) -> bool {
        self.running && self.pc + 1 < 4096 && opcode_of(word_at(self.memory, self.pc)) == 0xC
    }

    /// One fetch-decode-execute cycle. A machine that is not running stays
    /// as it is. Otherwise the big-endian word at the program counter is
    /// fetched, the program counter moves past it, and the word is executed.
    pub open spec fn step(self, random: u8) -> Result<Machine, CpuError> {
        if !self.running {
            Ok(self)
        } else if self.pc + 1 >= 4096 {
            Err(CpuError::MemoryOutOfRange)
        } else {
            Self::checked(self.jump(self.pc + 2).execute(word_at(self.memory, self.pc), random))
        }
    }
}

} // verus!
