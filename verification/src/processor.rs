use vstd::prelude::*;
use crate::display::{Display, DISPLAY_HEIGHT, DISPLAY_SIZE, DISPLAY_WIDTH};
use crate::fault::Fault;
use crate::instruction::Instruction;
use crate::keypad::{key_down, lemma_lowest_key_down_unique, Keypad, KEY_COUNT};
use crate::laws::lemma_execute_preserves_wf;
use crate::memory::{Memory, GLYPH_HEIGHT, MEMORY_SIZE, PROGRAM_START};
use crate::registers::{Registers, FLAG_REGISTER, REGISTER_COUNT};
use crate::stack::{CallStack, STACK_SIZE};
use crate::state::{decimal_digits, ends_as, MachineState};
use crate::timers::Timers;

verus! {

/// The virtual processor. Its host calls `tick` some number of times per
/// frame, then `tick_timers` once, then reads the display and the sound
/// flag and reports key changes.
pub struct Processor {
    pc: u16,
    memory: Memory,
    registers: Registers,
    stack: CallStack,
    timers: Timers,
    display: Display,
    keypad: Keypad,
}

impl View for Processor {
    type V = MachineState;

    closed spec fn view(&self) -> MachineState {
        MachineState {
            pc: self.pc,
            memory: self.memory@,
            registers: self.registers@,
            stack: self.stack@,
            timers: self.timers@,
            display: self.display@,
            keys: self.keypad@,
        }
    }
}

/// Draws one byte from `rand::random`, which takes it from the generator of
/// the calling thread. Nothing is claimed of the byte.
#[verifier::external_body]
fn random_byte() -> (byte: u8) {
    rand::random::<u8>()
}

impl Processor {
    /// The view of a processor whose call stack is as every call stack is,
    /// is well formed.
    proof fn lemma_wf(&self)
        requires
            self.stack.inv(),
        ensures
            self@.wf(),
    {
        self.stack.lemma_wf();
        self.memory.lemma_len();
        self.registers.lemma_len();
        self.display.lemma_len();
        self.keypad.lemma_len();
    }

    /// A processor in its power-on state.
    pub fn new() -> (processor: Processor)
        ensures
            processor@ == MachineState::power_on(),
            processor@.wf(),
    {
        Processor {
            pc: PROGRAM_START,
            memory: Memory::new(),
            registers: Registers::new(),
            stack: CallStack::new(),
            timers: Timers::new(),
            display: Display::new(),
            keypad: Keypad::new(),
        }
    }

    /// Puts the processor back into its power-on state, whatever was done
    /// to it before: afterwards it cannot be told from a new one.
    pub fn reset(&mut self)
        ensures
            final(self)@ == MachineState::power_on(),
            final(self)@.wf(),
    {
        self.pc = PROGRAM_START;
        self.memory = Memory::new();
        self.registers = Registers::new();
        self.stack = CallStack::new();
        self.timers = Timers::new();
        self.display = Display::new();
        self.keypad = Keypad::new();
    }

    /// Places a program at `PROGRAM_START`. A program of more than
    /// `MEMORY_SIZE - PROGRAM_START` bytes is rejected with
    /// `ProgramTooLarge` and nothing is changed.
    pub fn load(&mut self, data: &[u8]) -> (result: Result<(), Fault>)
        ensures
            data@.len() <= MEMORY_SIZE - PROGRAM_START ==> result is Ok
                && final(self)@ == old(self)@.with_program(data@),
            data@.len() > MEMORY_SIZE - PROGRAM_START ==> result == Err::<(), Fault>(
                Fault::ProgramTooLarge,
            ) && final(self)@ == old(self)@,
            final(self)@.wf(),
    {
        let result = self.memory.load_program(data);
        proof {
            use_type_invariant(&self.stack);
            self.lemma_wf();
        }
        result
    }

    /// Moves the program counter past one instruction.
    fn skip(&mut self)
        ensures
            final(self)@ == old(self)@.skip_if(true),
    {
        self.pc = self.pc.wrapping_add(2);
    }

    /// Sets register `x` to `value` and then `VF` to the flag.
    fn set_with_flag(&mut self, x: u8, value: u8, flag: bool)
        requires
            x < REGISTER_COUNT,
        ensures
            final(self)@ == old(self)@.with_v_and_flag(x, value, flag),
    {
        self.registers.set(x as usize, value);
        self.registers.set(
            FLAG_REGISTER,
            if flag {
                1
            } else {
                0
            },
        );
    }

    /// Carries out `instruction` on a processor whose program counter
    /// already points behind it. `random` is the byte that `Random` masks;
    /// no other instruction looks at it. An instruction that faults changes
    /// nothing.
    pub fn execute(&mut self, instruction: Instruction, random: u8) -> (result: Result<(), Fault>)
        requires
            instruction.wf(),
        ensures
            ends_as(old(self)@, old(self)@.execute(instruction, random), final(self)@, result),
            final(self)@.wf(),
    {
        proof {
            use_type_invariant(&self.stack);
            self.lemma_wf();
            lemma_execute_preserves_wf(self@, instruction, random);
        }
        match instruction {
            Instruction::Nop => Ok(()),
            Instruction::ClearScreen => {
                self.display.clear();
                Ok(())
            },
            Instruction::Return => match self.stack.pop() {
                Ok(addr) => {
                    self.pc = addr;
                    Ok(())
                },
                Err(fault) => Err(fault),
            },
            Instruction::Jump { addr } => {
                self.pc = addr;
                Ok(())
            },
            Instruction::Call { addr } => match self.stack.push(self.pc) {
                Ok(()) => {
                    self.pc = addr;
                    Ok(())
                },
                Err(fault) => Err(fault),
            },
            Instruction::SkipIfEqual { x, value } => {
                if self.registers.get(x as usize) == value {
                    self.skip();
                }
                Ok(())
            },
            Instruction::SkipIfNotEqual { x, value } => {
                if self.registers.get(x as usize) != value {
                    self.skip();
                }
                Ok(())
            },
            Instruction::SkipIfRegistersEqual { x, y } => {
                if self.registers.get(x as usize) == self.registers.get(y as usize) {
                    self.skip();
                }
                Ok(())
            },
            Instruction::Load { x, value } => {
                self.registers.set(x as usize, value);
                Ok(())
            },
            Instruction::AddValue { x, value } => {
                let vx = self.registers.get(x as usize);
                self.registers.set(x as usize, vx.wrapping_add(value));
                Ok(())
            },
            Instruction::Copy { x, y } => {
                let vy = self.registers.get(y as usize);
                self.registers.set(x as usize, vy);
                Ok(())
            },
            Instruction::Or { x, y } => {
                let vx = self.registers.get(x as usize);
                let vy = self.registers.get(y as usize);
                self.registers.set(x as usize, vx | vy);
                Ok(())
            },
            Instruction::And { x, y } => {
                let vx = self.registers.get(x as usize);
                let vy = self.registers.get(y as usize);
                self.registers.set(x as usize, vx & vy);
                Ok(())
            },
            Instruction::Xor { x, y } => {
                let vx = self.registers.get(x as usize);
                let vy = self.registers.get(y as usize);
                self.registers.set(x as usize, vx ^ vy);
                Ok(())
            },
            Instruction::Add { x, y } => {
                let vx = self.registers.get(x as usize);
                let vy = self.registers.get(y as usize);
                self.set_with_flag(x, vx.wrapping_add(vy), vy > 255 - vx);
                Ok(())
            },
            Instruction::Subtract { x, y } => {
                let vx = self.registers.get(x as usize);
                let vy = self.registers.get(y as usize);
                self.set_with_flag(x, vx.wrapping_sub(vy), vx >= vy);
                Ok(())
            },
            Instruction::ShiftRight { x } => {
                let vx = self.registers.get(x as usize);
                assert(vx >> 1 == vx / 2 && (vx & 1 == 1) == (vx % 2 == 1)) by (bit_vector);
                self.set_with_flag(x, vx >> 1, vx & 1 == 1);
                Ok(())
            },
            Instruction::SubtractFrom { x, y } => {
                let vx = self.registers.get(x as usize);
                let vy = self.registers.get(y as usize);
                self.set_with_flag(x, vy.wrapping_sub(vx), vy >= vx);
                Ok(())
            },
            Instruction::ShiftLeft { x } => {
                let vx = self.registers.get(x as usize);
                assert(vx << 1 == (vx as u16 * 2) % 256 && ((vx >> 7) & 1 == 1) == (vx >= 128))
                    by (bit_vector);
                self.set_with_flag(x, vx << 1, (vx >> 7) & 1 == 1);
                Ok(())
            },
            Instruction::SkipIfRegistersNotEqual { x, y } => {
                if self.registers.get(x as usize) != self.registers.get(y as usize) {
                    self.skip();
                }
                Ok(())
            },
            Instruction::LoadIndex { addr } => {
                self.registers.set_index(addr);
                Ok(())
            },
            Instruction::JumpOffset { addr } => {
                self.pc = (self.registers.get(0) as u16).wrapping_add(addr);
                Ok(())
            },
            Instruction::Random { x, mask } => {
                self.registers.set(x as usize, random & mask);
                Ok(())
            },
            Instruction::Draw { x, y, rows } => {
                let vx = self.registers.get(x as usize);
                let vy = self.registers.get(y as usize);
                match self.memory.read_block(self.registers.index(), rows as usize) {
                    Ok(sprite) => {
                        let collision = self.display.draw(vx, vy, sprite);
                        self.registers.set(
                            FLAG_REGISTER,
                            if collision {
                                1
                            } else {
                                0
                            },
                        );
                        Ok(())
                    },
                    Err(fault) => Err(fault),
                }
            },
            Instruction::SkipIfKeyDown { x } => {
                if self.keypad.is_down(self.registers.get(x as usize)) {
                    self.skip();
                }
                Ok(())
            },
            Instruction::SkipIfKeyUp { x } => {
                if !self.keypad.is_down(self.registers.get(x as usize)) {
                    self.skip();
                }
                Ok(())
            },
            Instruction::ReadDelay { x } => {
                self.registers.set(x as usize, self.timers.delay());
                Ok(())
            },
            Instruction::WaitKey { x } => {
                match self.keypad.first_down() {
                    Some(key) => {
                        proof {
                            lemma_lowest_key_down_unique(self.keypad@, key as int);
                        }
                        self.registers.set(x as usize, key);
                    },
                    None => {
                        self.pc = self.pc.wrapping_sub(2);
                    },
                }
                Ok(())
            },
            Instruction::SetDelay { x } => {
                self.timers.set_delay(self.registers.get(x as usize));
                Ok(())
            },
            Instruction::SetSound { x } => {
                self.timers.set_sound(self.registers.get(x as usize));
                Ok(())
            },
            Instruction::AddToIndex { x } => {
                let vx = self.registers.get(x as usize);
                self.registers.set_index(self.registers.index().wrapping_add(vx as u16));
                Ok(())
            },
            Instruction::Glyph { x } => {
                let vx = self.registers.get(x as usize);
                self.registers.set_index(vx as u16 * GLYPH_HEIGHT);
                Ok(())
            },
            Instruction::StoreDecimal { x } => {
                let vx = self.registers.get(x as usize);
                let digits: [u8; 3] = [vx / 100, vx / 10 % 10, vx % 10];
                assert(digits@ =~= decimal_digits(vx));
                self.memory.write_block(self.registers.index(), digits.as_slice())
            },
            Instruction::StoreRegisters { x } => {
                self.memory.write_block(self.registers.index(), self.registers.leading(x as usize))
            },
            Instruction::LoadRegisters { x } => {
                match self.memory.read_block(self.registers.index(), x as usize + 1) {
                    Ok(values) => {
                        self.registers.fill_leading(values);
                        Ok(())
                    },
                    Err(fault) => Err(fault),
                }
            },
        }
    }

    /// Reads the word at the program counter and moves the counter behind
    /// it. Where the word does not lie inside memory, nothing changes and
    /// `AddressOutOfRange` is reported.
    pub fn fetch(&mut self) -> (result: Result<u16, Fault>)
        ensures
            old(self)@.can_fetch() ==> result == Ok::<u16, Fault>(old(self)@.opcode())
                && final(self)@ == old(self)@.with_pc((old(self)@.pc + 2) as u16),
            !old(self)@.can_fetch() ==> result == Err::<u16, Fault>(Fault::AddressOutOfRange)
                && final(self)@ == old(self)@,
            final(self)@.wf(),
    {
        proof {
            use_type_invariant(&self.stack);
            self.lemma_wf();
        }
        match self.memory.read_word(self.pc) {
            Ok(opcode) => {
                self.pc = self.pc + 2;
                Ok(opcode)
            },
            Err(fault) => Err(fault),
        }
    }

    /// Whether the next instruction is one that uses a random byte.
    fn next_draws_random(&self) -> (draws: bool)
        ensures
            draws == self@.draws_random(),
    {
        match self.memory.read_word(self.pc) {
            Ok(opcode) => match Instruction::decode(opcode) {
                Some(Instruction::Random { .. }) => true,
                _ => false,
            },
            Err(_) => false,
        }
    }

    /// Fetches, decodes and executes one instruction, with `random` as the
    /// byte that a `Random` instruction masks. On a fault the processor is
    /// left exactly as it was, its program counter still at the instruction
    /// that faulted.
    pub fn tick_with(&mut self, random: u8) -> (result: Result<(), Fault>)
        ensures
            ends_as(old(self)@, old(self)@.step(random), final(self)@, result),
            final(self)@.wf(),
    {
        let origin = self.pc;
        let opcode = match self.fetch() {
            Ok(opcode) => opcode,
            Err(fault) => {
                return Err(fault);
            },
        };
        match Instruction::decode(opcode) {
            Some(instruction) => {
                let result = self.execute(instruction, random);
                if result.is_err() {
                    self.pc = origin;
                }
                result
            },
            None => {
                self.pc = origin;
                Err(Fault::UnimplementedOpcode { opcode, pc: origin })
            },
        }
    }

    /// Fetches, decodes and executes one instruction. A `Random` instruction
    /// masks a byte from the thread's random number generator, so of such a
    /// tick only this is known: it ends as `tick_with` does for some byte.
    /// Every other tick ends as `tick_with` does for any byte.
    pub fn tick(&mut self) -> (result: Result<(), Fault>)
        ensures
            exists|random: u8|
                ends_as(old(self)@, #[trigger] old(self)@.step(random), final(self)@, result),
            !old(self)@.draws_random() ==> forall|random: u8|
                ends_as(old(self)@, #[trigger] old(self)@.step(random), final(self)@, result),
            final(self)@.wf(),
    {
        let random: u8 = if self.next_draws_random() {
            random_byte()
        } else {
            0
        };
        self.tick_with(random)
    }

    /// Advances both timers by one tick and recomputes the sound flag.
    pub fn tick_timers(&mut self)
        ensures
            final(self)@ == old(self)@.tick_timers(),
            final(self)@.wf(),
    {
        self.timers.tick();
        proof {
            use_type_invariant(&self.stack);
            self.lemma_wf();
        }
    }

    /// The display, row by row, 64 cells to a row.
    pub fn get_display(&self) -> (display: &[bool])
        ensures
            display@ == self@.display,
            display@.len() == DISPLAY_SIZE,
    {
        proof {
            self.display.lemma_len();
        }
        self.display.pixels()
    }

    /// Whether the latest timer tick took the sound timer from one to zero.
    pub fn get_sound(&self) -> (sound: bool)
        ensures
            sound == self@.timers.sound_active,
    {
        self.timers.sound_active()
    }

    /// Address of the next instruction.
    pub fn pc(&self) -> (pc: u16)
        ensures
            pc == self@.pc,
    {
        self.pc
    }

    /// The value of register `x`.
    pub fn register(&self, x: usize) -> (value: u8)
        requires
            x < REGISTER_COUNT,
        ensures
            value == self@.registers.v[x as int],
    {
        self.registers.get(x)
    }

    /// The value of the index register `I`.
    pub fn index_register(&self) -> (i: u16)
        ensures
            i == self@.registers.i,
    {
        self.registers.index()
    }

    /// The value of the delay timer.
    pub fn delay_timer(&self) -> (delay: u8)
        ensures
            delay == self@.timers.delay,
    {
        self.timers.delay()
    }

    /// The value of the sound timer.
    pub fn sound_timer(&self) -> (sound: u8)
        ensures
            sound == self@.timers.sound,
    {
        self.timers.sound()
    }

    /// Number of return addresses on the call stack.
    pub fn stack_depth(&self) -> (depth: usize)
        ensures
            depth == self@.stack.sp,
            depth <= STACK_SIZE,
    {
        self.stack.depth()
    }

    /// The byte of memory at `addr`, or `AddressOutOfRange` where memory
    /// has no such address.
    pub fn memory_byte(&self, addr: u16) -> (result: Result<u8, Fault>)
        ensures
            addr < MEMORY_SIZE ==> result == Ok::<u8, Fault>(self@.memory[addr as int]),
            addr >= MEMORY_SIZE ==> result == Err::<u8, Fault>(Fault::AddressOutOfRange),
    {
        self.memory.read(addr)
    }

    /// Whether the display cell in column `x` of row `y` is lit.
    pub fn pixel(&self, x: usize, y: usize) -> (lit: bool)
        requires
            x < DISPLAY_WIDTH,
            y < DISPLAY_HEIGHT,
        ensures
            lit == self@.display[y * DISPLAY_WIDTH + x],
    {
        self.display.pixel(x, y)
    }

    /// Whether key `key` is held down.
    pub fn key_is_down(&self, key: u8) -> (down: bool)
        ensures
            down == key_down(self@.keys, key as int),
    {
        self.keypad.is_down(key)
    }

    /// Records that key `index` was pressed or released.
    pub fn keypress(&mut self, index: usize, pressed: bool)
        requires
            index < KEY_COUNT,
        ensures
            final(self)@ == old(self)@.with_key(index as int, pressed),
            final(self)@.wf(),
    {
        self.keypad.set(index, pressed);
        proof {
            use_type_invariant(&self.stack);
            self.lemma_wf();
        }
    }
}

} // verus!
