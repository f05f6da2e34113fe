use vstd::prelude::*;
use crate::display::{blank, draw_sprite, DISPLAY_SIZE};
use crate::fault::Fault;
use crate::instruction::Instruction;
use crate::keypad::{any_key_down, KEY_COUNT};
use crate::memory::{word_at, MEMORY_SIZE, PROGRAM_START};
use crate::stack::{CallStackView, STACK_SIZE};
use crate::state::{wrap16, MachineState};

verus! {

/// The power-on state is well formed.
pub proof fn lemma_power_on_wf()
    ensures
        MachineState::power_on().wf(),
{
}

/// A well-formed state stays well formed under every instruction: memory,
/// registers, stack, display and keypad keep their sizes, and the stack
/// pointer stays between 0 and 16.
pub proof fn lemma_execute_preserves_wf(state: MachineState, instruction: Instruction, random: u8)
    requires
        state.wf(),
        instruction.wf(),
    ensures
        state.execute(instruction, random) matches Ok(next) ==> next.wf(),
{
}

/// A well-formed state stays well formed under every whole step.
pub proof fn lemma_step_preserves_wf(state: MachineState, random: u8)
    requires
        state.wf(),
    ensures
        state.step(random) matches Ok(next) ==> next.wf(),
{
    if state.can_fetch() {
        Instruction::lemma_decoded_wf(state.opcode());
        if let Some(instruction) = Instruction::decode_spec(state.opcode()) {
            lemma_execute_preserves_wf(
                state.with_pc((state.pc + 2) as u16),
                instruction,
                random,
            );
        }
    }
}

/// Loading a program, a timer tick and a key event keep a state well formed.
pub proof fn lemma_host_operations_preserve_wf(
    state: MachineState,
    data: Seq<u8>,
    key: int,
    pressed: bool,
)
    requires
        state.wf(),
        0 <= key < KEY_COUNT,
    ensures
        state.with_program(data).wf(),
        state.tick_timers().wf(),
        state.with_key(key, pressed).wf(),
{
}

/// Loading a program touches no byte below `PROGRAM_START`, so the font
/// stays as it is; the program's bytes stand from `PROGRAM_START` on, and
/// what lies behind them is unchanged too.
pub proof fn lemma_load_keeps_font(state: MachineState, data: Seq<u8>)
    requires
        state.wf(),
        data.len() <= MEMORY_SIZE - PROGRAM_START,
    ensures
        forall|a: int|
            0 <= a < PROGRAM_START ==> state.with_program(data).memory[a] == state.memory[a],
        forall|k: int|
            0 <= k < data.len() ==> state.with_program(data).memory[PROGRAM_START + k] == data[k],
        forall|a: int|
            PROGRAM_START + data.len() <= a < MEMORY_SIZE ==> state.with_program(data).memory[a]
                == state.memory[a],
{
}

/// Only the `Random` instruction depends on the random byte: a step from a
/// state whose next instruction is any other ends the same for every byte.
pub proof fn lemma_only_random_uses_the_byte(state: MachineState, first: u8, second: u8)
    requires
        !state.draws_random(),
    ensures
        state.step(first) == state.step(second),
{
}

/// Clearing the screen leaves every cell unlit, whatever was drawn before,
/// and changes nothing else but the program counter.
pub proof fn lemma_clear_screen_unlights_every_cell(state: MachineState, random: u8)
    requires
        state.wf(),
        state.can_fetch(),
        state.opcode() == 0x00E0,
    ensures
        state.step(random) == Ok::<MachineState, Fault>(
            MachineState { pc: (state.pc + 2) as u16, display: blank(), ..state },
        ),
        forall|k: int| 0 <= k < DISPLAY_SIZE ==> !state.step(random)->Ok_0.display[k],
{
}

/// A return undoes a call: where there is room on the stack, a call and
/// then a return leave the program counter and the stack pointer as they
/// were before the call. Nothing else has changed but the slot that held
/// the return address.
pub proof fn lemma_return_undoes_call(state: MachineState, addr: u16, first: u8, second: u8)
    requires
        state.wf(),
        state.stack.sp < STACK_SIZE,
    ensures
        state.execute(Instruction::Call { addr }, first) is Ok,
        state.execute(Instruction::Call { addr }, first)->Ok_0.execute(
            Instruction::Return,
            second,
        ) == Ok::<MachineState, Fault>(
            MachineState {
                stack: CallStackView {
                    slots: state.stack.slots.update(state.stack.sp as int, state.pc),
                    ..state.stack
                },
                ..state
            },
        ),
{
    let called = state.execute(Instruction::Call { addr }, first)->Ok_0;
    let returned = called.execute(Instruction::Return, second)->Ok_0;
    assert(returned.stack =~= CallStackView {
        slots: state.stack.slots.update(state.stack.sp as int, state.pc),
        ..state.stack
    });
}

/// A call followed at once by a return brings control back to the
/// instruction behind the call: where the next instruction is a call with
/// room on the stack and the subroutine starts with a return, two steps end
/// with the program counter two bytes behind the call and with the stack
/// pointer where it was.
pub proof fn lemma_call_then_return(state: MachineState, addr: u16, first: u8, second: u8)
    requires
        state.wf(),
        state.can_fetch(),
        Instruction::decode_spec(state.opcode()) == Some(Instruction::Call { addr }),
        state.stack.sp < STACK_SIZE,
        addr + 1 < MEMORY_SIZE,
        word_at(state.memory, addr as int) == 0x00EE,
    ensures
        state.step(first) is Ok,
        state.step(first)->Ok_0.pc == addr,
        state.step(first)->Ok_0.step(second) is Ok,
        ({
            let returned = state.step(first)->Ok_0.step(second)->Ok_0;
            &&& returned.pc == state.pc + 2
            &&& returned.stack.sp == state.stack.sp
            &&& returned == (MachineState { pc: returned.pc, stack: returned.stack, ..state })
        }),
{
    let called = state.step(first)->Ok_0;
    assert(called.opcode() == 0x00EEu16);
}

/// Waiting for a key while none is down makes no progress: the step ends
/// in the very state it started from, so the same instruction is fetched
/// again by the next step.
pub proof fn lemma_wait_key_repeats(state: MachineState, x: u8, random: u8)
    requires
        state.wf(),
        state.can_fetch(),
        Instruction::decode_spec(state.opcode()) == Some(Instruction::WaitKey { x }),
        !any_key_down(state.keys),
    ensures
        state.step(random) == Ok::<MachineState, Fault>(state),
{
    let fetched = state.with_pc((state.pc + 2) as u16);
    assert(fetched.with_pc(wrap16(fetched.pc - 2)) =~= state);
}

/// Drawing a sprite twice at the same place restores the display: the
/// second draw toggles back exactly the cells that the first one toggled.
pub proof fn lemma_draw_twice_restores(pixels: Seq<bool>, sprite: Seq<u8>, x: u8, y: u8)
    requires
        pixels.len() == DISPLAY_SIZE,
    ensures
        draw_sprite(draw_sprite(pixels, sprite, x, y), sprite, x, y) == pixels,
{
    assert(draw_sprite(draw_sprite(pixels, sprite, x, y), sprite, x, y) =~= pixels);
}

} // verus!
