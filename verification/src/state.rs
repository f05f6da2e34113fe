use vstd::prelude::*;
use crate::display::{blank, draw_sprite, sprite_collides, DISPLAY_SIZE};
use crate::fault::Fault;
use crate::instruction::Instruction;
use crate::keypad::{all_released, any_key_down, key_down, lowest_key_down, KEY_COUNT};
use crate::memory::{
    block, overlay, power_on_memory, range_in_memory, word_at, GLYPH_HEIGHT, MEMORY_SIZE,
    PROGRAM_START,
};
use crate::registers::{RegistersView, FLAG_REGISTER, REGISTER_COUNT};
use crate::stack::{CallStackView, STACK_SIZE};
use crate::timers::TimersView;

verus! {

/// The whole state of a processor as a value.
#[verifier::ext_equal]
pub struct MachineState {
    /// Address of the next instruction.
    pub pc: u16,
    /// The 4096 bytes of memory.
    pub memory: Seq<u8>,
    /// `V0` to `VF` and `I`.
    pub registers: RegistersView,
    /// The sixteen stack slots and the stack pointer.
    pub stack: CallStackView,
    /// The two timers and the sound flag.
    pub timers: TimersView,
    /// The 2048 pixels, row by row.
    pub display: Seq<bool>,
    /// The sixteen keys.
    pub keys: Seq<bool>,
}

/// `value` in 8 bits.
pub open spec fn wrap8(value: int) -> u8 {
    (value % 256) as u8
}

/// `value` in 16 bits.
pub open spec fn wrap16(value: int) -> u16 {
    (value % 65536) as u16
}

/// The three decimal digits of `value`: hundreds, tens, ones.
pub open spec fn decimal_digits(value: u8) -> Seq<u8> {
    seq![value / 100, value / 10 % 10, value % 10]
}

impl MachineState {
    /// Whether every part has the size that the machine gives it.
    pub open spec fn wf(self) -> bool {
        &&& self.memory.len() == MEMORY_SIZE
        &&& self.registers.v.len() == REGISTER_COUNT
        &&& self.stack.wf()
        &&& self.display.len() == DISPLAY_SIZE
        &&& self.keys.len() == KEY_COUNT
    }

    /// The state at power-on: the font in memory, execution about to start
    /// at `PROGRAM_START`, everything else zero, unlit or released.
    pub open spec fn power_on() -> MachineState {
        MachineState {
            pc: PROGRAM_START,
            memory: power_on_memory(),
            registers: RegistersView::zeroed(),
            stack: CallStackView::empty(),
            timers: TimersView::zeroed(),
            display: blank(),
            keys: all_released(),
        }
    }

    /// The value of register `x`.
    pub open spec fn v(self, x: u8) -> u8 {
        self.registers.v[x as int]
    }

    /// This state with register `x` set to `value`.
    pub open spec fn with_v(self, x: u8, value: u8) -> MachineState {
        MachineState {
            registers: RegistersView { v: self.registers.v.update(x as int, value), ..self.registers },
            ..self
        }
    }

    /// This state with register `x` set to `value` and then `VF` set to 1
    /// where `flag` holds and to 0 where it does not. Where `x` is `VF`
    /// itself, the flag is what stays.
    pub open spec fn with_v_and_flag(self, x: u8, value: u8, flag: bool) -> MachineState {
        self.with_v(x, value).with_v(
            FLAG_REGISTER as u8,
            if flag {
                1
            } else {
                0
            },
        )
    }

    /// This state with the index register set to `i`.
    pub open spec fn with_index(self, i: u16) -> MachineState {
        MachineState { registers: RegistersView { i, ..self.registers }, ..self }
    }

    /// This state with the program counter set to `pc`.
    pub open spec fn with_pc(self, pc: u16) -> MachineState {
        MachineState { pc, ..self }
    }

    /// This state with the program counter moved past one instruction where
    /// `condition` holds, and unchanged where it does not.
    pub open spec fn skip_if(self, condition: bool) -> MachineState {
        if condition {
            self.with_pc(wrap16(self.pc + 2))
        } else {
            self
        }
    }

    /// This state after a program has been placed at `PROGRAM_START`.
    pub open spec fn with_program(self, data: Seq<u8>) -> MachineState {
        MachineState { memory: overlay(self.memory, PROGRAM_START as int, data), ..self }
    }

    /// This state after one timer tick.
    pub open spec fn tick_timers(self) -> MachineState {
        MachineState { timers: self.timers.tick(), ..self }
    }

    /// This state after key `key` was pressed or released.
    pub open spec fn with_key(self, key: int, pressed: bool) -> MachineState {
        MachineState { keys: self.keys.update(key, pressed), ..self }
    }

    /// Whether the word at the program counter lies inside memory.
    pub open spec fn can_fetch(self) -> bool {
        self.pc + 1 < MEMORY_SIZE
    }

    /// The word at the program counter.
    pub open spec fn opcode(self) -> u16 {
        word_at(self.memory, self.pc as int)
    }

    /// Whether the next instruction is one that uses a random byte.
    pub open spec fn draws_random(self) -> bool {
        self.can_fetch() && Instruction::decode_spec(self.opcode()) matches Some(
            Instruction::Random { .. },
        )
    }

    /// The effect of `instruction` on a state whose program counter already
    /// points behind it, or the fault that stops it. `random` is the byte
    /// that `Random` uses; no other instruction looks at it.
    pub open spec fn execute(self, instruction: Instruction, random: u8) -> Result<
        MachineState,
        Fault,
    > {
        match instruction {
            Instruction::Nop => Ok(self),
            Instruction::ClearScreen => Ok(MachineState { display: blank(), ..self }),
            Instruction::Return => if self.stack.sp == 0 {
                Err(Fault::StackUnderflow)
            } else {
                Ok(MachineState { pc: self.stack.top(), stack: self.stack.pop(), ..self })
            },
            Instruction::Jump { addr } => Ok(self.with_pc(addr)),
            Instruction::Call { addr } => if self.stack.sp >= STACK_SIZE {
                Err(Fault::StackOverflow)
            } else {
                Ok(MachineState { pc: addr, stack: self.stack.push(self.pc), ..self })
            },
            Instruction::SkipIfEqual { x, value } => Ok(self.skip_if(self.v(x) == value)),
            Instruction::SkipIfNotEqual { x, value } => Ok(self.skip_if(self.v(x) != value)),
            Instruction::SkipIfRegistersEqual { x, y } => Ok(self.skip_if(self.v(x) == self.v(y))),
            Instruction::Load { x, value } => Ok(self.with_v(x, value)),
            Instruction::AddValue { x, value } => Ok(self.with_v(x, wrap8(self.v(x) + value))),
            Instruction::Copy { x, y } => Ok(self.with_v(x, self.v(y))),
            Instruction::Or { x, y } => Ok(self.with_v(x, self.v(x) | self.v(y))),
            Instruction::And { x, y } => Ok(self.with_v(x, self.v(x) & self.v(y))),
            Instruction::Xor { x, y } => Ok(self.with_v(x, self.v(x) ^ self.v(y))),
            Instruction::Add { x, y } => Ok(
                self.with_v_and_flag(
                    x,
                    wrap8(self.v(x) + self.v(y)),
                    self.v(x) + self.v(y) > 255,
                ),
            ),
            Instruction::Subtract { x, y } => Ok(
                self.with_v_and_flag(x, wrap8(self.v(x) - self.v(y)), self.v(x) >= self.v(y)),
            ),
            Instruction::ShiftRight { x } => Ok(
                self.with_v_and_flag(x, self.v(x) / 2, self.v(x) % 2 == 1),
            ),
            Instruction::SubtractFrom { x, y } => Ok(
                self.with_v_and_flag(x, wrap8(self.v(y) - self.v(x)), self.v(y) >= self.v(x)),
            ),
            Instruction::ShiftLeft { x } => Ok(
                self.with_v_and_flag(x, wrap8(self.v(x) * 2), self.v(x) >= 128),
            ),
            Instruction::SkipIfRegistersNotEqual { x, y } => Ok(
                self.skip_if(self.v(x) != self.v(y)),
            ),
            Instruction::LoadIndex { addr } => Ok(self.with_index(addr)),
            Instruction::JumpOffset { addr } => Ok(self.with_pc(wrap16(self.v(0) + addr))),
            Instruction::Random { x, mask } => Ok(self.with_v(x, random & mask)),
            Instruction::Draw { x, y, rows } => if !range_in_memory(
                self.registers.i as int,
                rows as int,
            ) {
                Err(Fault::AddressOutOfRange)
            } else {
                let sprite = block(self.memory, self.registers.i as int, rows as int);
                Ok(
                    MachineState {
                        display: draw_sprite(self.display, sprite, self.v(x), self.v(y)),
                        ..self
                    }.with_v(
                        FLAG_REGISTER as u8,
                        if sprite_collides(self.display, sprite, self.v(x), self.v(y)) {
                            1
                        } else {
                            0
                        },
                    ),
                )
            },
            Instruction::SkipIfKeyDown { x } => Ok(
                self.skip_if(key_down(self.keys, self.v(x) as int)),
            ),
            Instruction::SkipIfKeyUp { x } => Ok(
                self.skip_if(!key_down(self.keys, self.v(x) as int)),
            ),
            Instruction::ReadDelay { x } => Ok(self.with_v(x, self.timers.delay)),
            Instruction::WaitKey { x } => if any_key_down(self.keys) {
                Ok(self.with_v(x, lowest_key_down(self.keys) as u8))
            } else {
                Ok(self.with_pc(wrap16(self.pc - 2)))
            },
            Instruction::SetDelay { x } => Ok(
                MachineState { timers: TimersView { delay: self.v(x), ..self.timers }, ..self },
            ),
            Instruction::SetSound { x } => Ok(
                MachineState { timers: TimersView { sound: self.v(x), ..self.timers }, ..self },
            ),
            Instruction::AddToIndex { x } => Ok(
                self.with_index(wrap16(self.registers.i + self.v(x))),
            ),
            Instruction::Glyph { x } => Ok(self.with_index((self.v(x) * GLYPH_HEIGHT) as u16)),
            Instruction::StoreDecimal { x } => if !range_in_memory(self.registers.i as int, 3) {
                Err(Fault::AddressOutOfRange)
            } else {
                Ok(
                    MachineState {
                        memory: overlay(
                            self.memory,
                            self.registers.i as int,
                            decimal_digits(self.v(x)),
                        ),
                        ..self
                    },
                )
            },
            Instruction::StoreRegisters { x } => if !range_in_memory(
                self.registers.i as int,
                x + 1,
            ) {
                Err(Fault::AddressOutOfRange)
            } else {
                Ok(
                    MachineState {
                        memory: overlay(
                            self.memory,
                            self.registers.i as int,
                            self.registers.v.subrange(0, x + 1),
                        ),
                        ..self
                    },
                )
            },
            Instruction::LoadRegisters { x } => if !range_in_memory(
                self.registers.i as int,
                x + 1,
            ) {
                Err(Fault::AddressOutOfRange)
            } else {
                Ok(
                    MachineState {
                        registers: RegistersView {
                            v: Seq::new(
                                REGISTER_COUNT as nat,
                                |r: int|
                                    if r <= x {
                                        self.memory[self.registers.i + r]
                                    } else {
                                        self.registers.v[r]
                                    },
                            ),
                            ..self.registers
                        },
                        ..self
                    },
                )
            },
        }
    }

    /// One whole instruction: the word at the program counter is fetched,
    /// the program counter moves behind it, and the instruction that the
    /// word encodes takes effect. The result is the fault where the word
    /// lies outside memory, encodes no instruction, or the instruction
    /// faults.
    pub open spec fn step(self, random: u8) -> Result<MachineState, Fault> {
        if !self.can_fetch() {
            Err(Fault::AddressOutOfRange)
        } else {
            match Instruction::decode_spec(self.opcode()) {
                None => Err(Fault::UnimplementedOpcode { opcode: self.opcode(), pc: self.pc }),
                Some(instruction) => self.with_pc((self.pc + 2) as u16).execute(
                    instruction,
                    random,
                ),
            }
        }
    }
}

/// Whether an operation that was to take `before` to `expected` ended as it
/// should: in the expected state with `Ok`, or with the expected fault and
/// the state still `before`.
pub open spec fn ends_as<T>(
    before: MachineState,
    expected: Result<MachineState, Fault>,
    after: MachineState,
    result: Result<T, Fault>,
) -> bool {
    match expected {
        Ok(next) => result is Ok && after =~= next,
        Err(fault) => result == Err::<T, Fault>(fault) && after =~= before,
    }
}

} // verus!
