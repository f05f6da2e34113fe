//! A CHIP-8 virtual processor.
//!
//! The processor is a state machine that its host clocks from outside: the
//! host calls [`processor::Processor::tick`] for each instruction and
//! [`processor::Processor::tick_timers`] for each timer tick, reads the
//! display and the sound flag, and reports key changes. Nothing here opens a
//! window, plays a sound or reads a file.
//!
//! [`state::MachineState`] is the processor as a mathematical value, and
//! [`state::MachineState::step`] says what one instruction does to it. The
//! contracts of the executable code are stated over that value, and
//! [`laws`] holds what follows for every state.

pub mod display;
pub mod fault;
pub mod instruction;
pub mod keypad;
pub mod laws;
pub mod memory;
pub mod processor;
pub mod registers;
pub mod stack;
pub mod state;
pub mod timers;
