use vstd::prelude::*;
use crate::fault::Fault;

verus! {

/// Number of return addresses the call stack can hold.
pub const STACK_SIZE: usize = 16;

/// The call stack as a value: all sixteen slots and the stack pointer.
/// Slots at and above `sp` hold whatever was last written there.
#[verifier::ext_equal]
pub struct CallStackView {
    pub slots: Seq<u16>,
    pub sp: nat,
}

impl CallStackView {
    /// Whether there are sixteen slots and the stack pointer is at most 16.
    pub open spec fn wf(self) -> bool {
        &&& self.slots.len() == STACK_SIZE
        &&& self.sp <= STACK_SIZE
    }

    /// All slots zero, nothing pushed.
    pub open spec fn empty() -> CallStackView {
        CallStackView { slots: Seq::new(STACK_SIZE as nat, |i: int| 0u16), sp: 0 }
    }

    /// This stack with `value` written into the slot at the stack pointer
    /// and the pointer moved up by one.
    pub open spec fn push(self, value: u16) -> CallStackView {
        CallStackView { slots: self.slots.update(self.sp as int, value), sp: self.sp + 1 }
    }

    /// This stack with the pointer moved back by one; the slot keeps its
    /// value.
    pub open spec fn pop(self) -> CallStackView {
        CallStackView { slots: self.slots, sp: (self.sp - 1) as nat }
    }

    /// The most recently pushed value.
    pub open spec fn top(self) -> u16 {
        self.slots[self.sp - 1]
    }
}

/// Sixteen return addresses and a stack pointer.
pub struct CallStack {
    slots: [u16; 16],
    sp: usize,
}

impl View for CallStack {
    type V = CallStackView;

    closed spec fn view(&self) -> CallStackView {
        CallStackView { slots: self.slots@, sp: self.sp as nat }
    }
}

impl CallStack {
    /// What holds of every call stack: the stack pointer does not exceed
    /// the number of slots.
    #[verifier::type_invariant]
    pub closed spec fn inv(self) -> bool {
        self.sp <= STACK_SIZE
    }

    /// The view of a call stack is well formed.
    pub proof fn lemma_wf(self)
        requires
            self.inv(),
        ensures
            self@.wf(),
    {
    }

    /// An empty call stack.
    pub fn new() -> (stack: CallStack)
        ensures
            stack@ == CallStackView::empty(),
            stack@.wf(),
    {
        CallStack { slots: [0; 16], sp: 0 }
    }

    /// Number of return addresses currently held.
    pub fn depth(&self) -> (depth: usize)
        ensures
            depth == self@.sp,
            self@.wf(),
    {
        proof {
            use_type_invariant(self);
        }
        self.sp
    }

    /// Stores `value` in the slot at the stack pointer and advances the
    /// pointer. A full stack is left as it is and reported.
    pub fn push(&mut self, value: u16) -> (result: Result<(), Fault>)
        ensures
            old(self)@.sp < STACK_SIZE ==> result is Ok && final(self)@ == old(self)@.push(value),
            old(self)@.sp >= STACK_SIZE ==> result == Err::<(), Fault>(Fault::StackOverflow)
                && final(self)@ == old(self)@,
            final(self)@.wf(),
    {
        proof {
            use_type_invariant(&*self);
        }
        if self.sp >= STACK_SIZE {
            return Err(Fault::StackOverflow);
        }
        self.slots[self.sp] = value;
        self.sp = self.sp + 1;
        Ok(())
    }

    /// Moves the stack pointer back by one and returns the value in that
    /// slot. An empty stack is left as it is and reported.
    pub fn pop(&mut self) -> (result: Result<u16, Fault>)
        ensures
            old(self)@.sp > 0 ==> result == Ok::<u16, Fault>(old(self)@.top())
                && final(self)@ == old(self)@.pop(),
            old(self)@.sp == 0 ==> result == Err::<u16, Fault>(Fault::StackUnderflow)
                && final(self)@ == old(self)@,
            final(self)@.wf(),
    {
        proof {
            use_type_invariant(&*self);
        }
        if self.sp == 0 {
            return Err(Fault::StackUnderflow);
        }
        self.sp = self.sp - 1;
        Ok(self.slots[self.sp])
    }
}

} // verus!
