use vstd::prelude::*;

verus! {

/// Number of general-purpose registers, `V0` to `VF`.
pub const REGISTER_COUNT: usize = 16;

/// Index of `VF`, which several instructions overwrite with a carry, borrow
/// or collision flag.
pub const FLAG_REGISTER: usize = 15;

/// The register file as a value.
#[verifier::ext_equal]
pub struct RegistersView {
    /// `V0` to `VF`.
    pub v: Seq<u8>,
    /// The index register `I`.
    pub i: u16,
}

impl RegistersView {
    /// Every register zero.
    pub open spec fn zeroed() -> RegistersView {
        RegistersView { v: Seq::new(REGISTER_COUNT as nat, |x: int| 0u8), i: 0 }
    }
}

/// Sixteen 8-bit registers and the 16-bit index register.
pub struct Registers {
    v: [u8; 16],
    i: u16,
}

impl View for Registers {
    type V = RegistersView;

    closed spec fn view(&self) -> RegistersView {
        RegistersView { v: self.v@, i: self.i }
    }
}

impl Registers {
    /// A register file with every register zero.
    pub fn new() -> (registers: Registers)
        ensures
            registers@ == RegistersView::zeroed(),
    {
        let registers = Registers { v: [0; 16], i: 0 };
        assert(registers@.v =~= RegistersView::zeroed().v);
        registers
    }

    /// Every view of a register file has exactly `REGISTER_COUNT` registers.
    pub proof fn lemma_len(&self)
        ensures
            self@.v.len() == REGISTER_COUNT,
    {
    }

    /// The value of register `x`.
    pub fn get(&self, x: usize) -> (value: u8)
        requires
            x < REGISTER_COUNT,
        ensures
            value == self@.v[x as int],
    {
        self.v[x]
    }

    /// Sets register `x` to `value`.
    pub fn set(&mut self, x: usize, value: u8)
        requires
            x < REGISTER_COUNT,
        ensures
            final(self)@ == (RegistersView { v: old(self)@.v.update(x as int, value), ..old(self)@ }),
    {
        self.v[x] = value;
    }

    /// The value of the index register.
    pub fn index(&self) -> (i: u16)
        ensures
            i == self@.i,
    {
        self.i
    }

    /// Sets the index register to `i`.
    pub fn set_index(&mut self, i: u16)
        ensures
            final(self)@ == (RegistersView { i, ..old(self)@ }),
    {
        self.i = i;
    }

    /// Copies `values` into the registers from `V0` on; the registers behind
    /// them keep their values.
    pub fn fill_leading(&mut self, values: &[u8])
        requires
            values@.len() <= REGISTER_COUNT,
        ensures
            final(self)@ == (RegistersView {
                v: Seq::new(
                    REGISTER_COUNT as nat,
                    |r: int|
                        if r < values@.len() {
                            values@[r]
                        } else {
                            old(self)@.v[r]
                        },
                ),
                ..old(self)@
            }),
    {
        let count = values.len();
        let mut r: usize = 0;
        while r < count
            invariant
                r <= count <= REGISTER_COUNT,
                count == values@.len(),
                self.i == old(self).i,
                forall|k: int|
                    0 <= k < REGISTER_COUNT ==> self.v@[k] == if k < r {
                        values@[k]
                    } else {
                        old(self).v@[k]
                    },
            decreases count - r,
        {
            self.v[r] = values[r];
            r = r + 1;
        }
        assert(self@.v =~= Seq::new(
            REGISTER_COUNT as nat,
            |r: int|
                if r < values@.len() {
                    values@[r]
                } else {
                    old(self)@.v[r]
                },
        ));
    }

    /// The values of `V0` up to and including register `last`.
    pub fn leading(&self, last: usize) -> (values: &[u8])
        requires
            last < REGISTER_COUNT,
        ensures
            values@ == self@.v.subrange(0, last + 1),
    {
        vstd::slice::slice_subrange(self.v.as_slice(), 0, last + 1)
    }
}

} // verus!
