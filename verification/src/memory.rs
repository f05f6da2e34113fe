use vstd::prelude::*;
use crate::fault::Fault;

verus! {

/// Number of bytes the processor can address.
pub const MEMORY_SIZE: usize = 4096;

/// Address at which a program is placed and at which execution starts.
pub const PROGRAM_START: u16 = 0x200;

/// Number of bytes in the built-in font: sixteen glyphs of five rows.
pub const FONT_SIZE: usize = 80;

/// Number of rows in one glyph of the built-in font.
pub const GLYPH_HEIGHT: u16 = 5;

/// The built-in font: for each hexadecimal digit `0` to `F` in turn, five
/// rows whose high four bits draw the digit.
pub open spec fn font() -> Seq<u8> {
    seq![
        0xF0u8, 0x90, 0x90, 0x90, 0xF0,
        0x20, 0x60, 0x20, 0x20, 0x70,
        0xF0, 0x10, 0xF0, 0x80, 0xF0,
        0xF0, 0x10, 0xF0, 0x10, 0xF0,
        0x90, 0x90, 0xF0, 0x10, 0x10,
        0xF0, 0x80, 0xF0, 0x10, 0xF0,
        0xF0, 0x80, 0xF0, 0x90, 0xF0,
        0xF0, 0x10, 0x20, 0x40, 0x40,
        0xF0, 0x90, 0xF0, 0x90, 0xF0,
        0xF0, 0x90, 0xF0, 0x10, 0xF0,
        0xF0, 0x90, 0xF0, 0x90, 0x90,
        0xE0, 0x90, 0xE0, 0x90, 0xE0,
        0xF0, 0x80, 0x80, 0x80, 0xF0,
        0xE0, 0x90, 0x90, 0x90, 0xE0,
        0xF0, 0x80, 0xF0, 0x80, 0xF0,
        0xF0, 0x80, 0xF0, 0x80, 0x80,
    ]
}

/// Memory at power-on: the font from address 0, zero everywhere else.
pub open spec fn power_on_memory() -> Seq<u8> {
    Seq::new(MEMORY_SIZE as nat, |a: int| if a < FONT_SIZE { font()[a] } else { 0u8 })
}

/// Whether `len` bytes starting at `start` all lie inside memory. An empty
/// range touches no byte and lies inside wherever it starts.
pub open spec fn range_in_memory(start: int, len: int) -> bool {
    len == 0 || start + len <= MEMORY_SIZE
}

/// `memory` with `data` written over it from `start` on.
pub open spec fn overlay(memory: Seq<u8>, start: int, data: Seq<u8>) -> Seq<u8> {
    Seq::new(
        memory.len(),
        |a: int| if start <= a < start + data.len() { data[a - start] } else { memory[a] },
    )
}

/// The `len` bytes of `memory` from `start` on.
pub open spec fn block(memory: Seq<u8>, start: int, len: int) -> Seq<u8> {
    Seq::new(len as nat, |k: int| memory[start + k])
}

/// The two bytes at `addr` and `addr + 1` read as one big-endian word.
pub open spec fn word_at(memory: Seq<u8>, addr: int) -> u16 {
    (memory[addr] * 256 + memory[addr + 1]) as u16
}

fn font_table() -> (table: [u8; 80])
    ensures
        table@ == font(),
{
    let table: [u8; 80] = [
        0xF0, 0x90, 0x90, 0x90, 0xF0,
        0x20, 0x60, 0x20, 0x20, 0x70,
        0xF0, 0x10, 0xF0, 0x80, 0xF0,
        0xF0, 0x10, 0xF0, 0x10, 0xF0,
        0x90, 0x90, 0xF0, 0x10, 0x10,
        0xF0, 0x80, 0xF0, 0x10, 0xF0,
        0xF0, 0x80, 0xF0, 0x90, 0xF0,
        0xF0, 0x10, 0x20, 0x40, 0x40,
        0xF0, 0x90, 0xF0, 0x90, 0xF0,
        0xF0, 0x90, 0xF0, 0x10, 0xF0,
        0xF0, 0x90, 0xF0, 0x90, 0x90,
        0xE0, 0x90, 0xE0, 0x90, 0xE0,
        0xF0, 0x80, 0x80, 0x80, 0xF0,
        0xE0, 0x90, 0x90, 0x90, 0xE0,
        0xF0, 0x80, 0xF0, 0x80, 0xF0,
        0xF0, 0x80, 0xF0, 0x80, 0x80,
    ];
    assert(table@ =~= font());
    table
}

/// The 4096-byte address space.
pub struct Memory {
    bytes: [u8; 4096],
}

impl View for Memory {
    type V = Seq<u8>;

    closed spec fn view(&self) -> Seq<u8> {
        self.bytes@
    }
}

impl Memory {
    /// Memory as it is at power-on.
    pub fn new() -> (memory: Memory)
        ensures
            memory@ == power_on_memory(),
    {
        let glyphs = font_table();
        let mut bytes = [0u8; 4096];
        let mut a: usize = 0;
        while a < FONT_SIZE
            invariant
                a <= FONT_SIZE,
                glyphs@ == font(),
                forall|k: int| 0 <= k < a ==> bytes@[k] == font()[k],
                forall|k: int| a <= k < MEMORY_SIZE ==> bytes@[k] == 0,
            decreases FONT_SIZE - a,
        {
            bytes[a] = glyphs[a];
            a = a + 1;
        }
        assert(bytes@ =~= power_on_memory());
        Memory { bytes }
    }

    /// Every view of a memory has exactly `MEMORY_SIZE` bytes.
    pub proof fn lemma_len(&self)
        ensures
            self@.len() == MEMORY_SIZE,
    {
    }

    /// The byte at `addr`, or `AddressOutOfRange` where memory has no such
    /// address.
    pub fn read(&self, addr: u16) -> (result: Result<u8, Fault>)
        ensures
            addr < MEMORY_SIZE ==> result == Ok::<u8, Fault>(self@[addr as int]),
            addr >= MEMORY_SIZE ==> result == Err::<u8, Fault>(Fault::AddressOutOfRange),
    {
        if (addr as usize) < MEMORY_SIZE {
            Ok(self.bytes[addr as usize])
        } else {
            Err(Fault::AddressOutOfRange)
        }
    }

    /// The big-endian word at `addr`, or `AddressOutOfRange` where either of
    /// its two bytes lies outside memory.
    pub fn read_word(&self, addr: u16) -> (result: Result<u16, Fault>)
        ensures
            addr + 1 < MEMORY_SIZE ==> result == Ok::<u16, Fault>(word_at(self@, addr as int)),
            addr + 1 >= MEMORY_SIZE ==> result == Err::<u16, Fault>(Fault::AddressOutOfRange),
    {
        if (addr as usize) + 1 < MEMORY_SIZE {
            let high = self.bytes[addr as usize];
            let low = self.bytes[addr as usize + 1];
            assert(((high as u16) << 8) | (low as u16) == (high * 256 + low) as u16) by (bit_vector);
            Ok(((high as u16) << 8) | (low as u16))
        } else {
            Err(Fault::AddressOutOfRange)
        }
    }

    /// The `len` bytes from `start` on, or `AddressOutOfRange` where the
    /// range leaves memory.
    pub fn read_block(&self, start: u16, len: usize) -> (result: Result<&[u8], Fault>)
        ensures
            range_in_memory(start as int, len as int) ==> result is Ok && result->Ok_0@ == block(
                self@,
                start as int,
                len as int,
            ),
            !range_in_memory(start as int, len as int) ==> result == Err::<&[u8], Fault>(
                Fault::AddressOutOfRange,
            ),
    {
        if len == 0 {
            let none = vstd::slice::slice_subrange(self.bytes.as_slice(), 0, 0);
            assert(none@ =~= block(self@, start as int, len as int));
            Ok(none)
        } else if len <= MEMORY_SIZE && (start as usize) <= MEMORY_SIZE - len {
            let rows = vstd::slice::slice_subrange(
                self.bytes.as_slice(),
                start as usize,
                start as usize + len,
            );
            assert(rows@ =~= block(self@, start as int, len as int));
            Ok(rows)
        } else {
            Err(Fault::AddressOutOfRange)
        }
    }

    /// Writes `value` at `addr`, or reports `AddressOutOfRange` and writes
    /// nothing.
    pub fn write(&mut self, addr: u16, value: u8) -> (result: Result<(), Fault>)
        ensures
            addr < MEMORY_SIZE ==> result is Ok && final(self)@ == old(self)@.update(
                addr as int,
                value,
            ),
            addr >= MEMORY_SIZE ==> result == Err::<(), Fault>(Fault::AddressOutOfRange)
                && final(self)@ == old(self)@,
    {
        if (addr as usize) < MEMORY_SIZE {
            self.bytes[addr as usize] = value;
            Ok(())
        } else {
            Err(Fault::AddressOutOfRange)
        }
    }

    /// Copies `data` into memory from `start` on. Where the range leaves
    /// memory nothing is written and `AddressOutOfRange` is reported.
    pub fn write_block(&mut self, start: u16, data: &[u8]) -> (result: Result<(), Fault>)
        ensures
            range_in_memory(start as int, data@.len() as int) ==> result is Ok && final(self)@
                == overlay(old(self)@, start as int, data@),
            !range_in_memory(start as int, data@.len() as int) ==> result == Err::<(), Fault>(
                Fault::AddressOutOfRange,
            ) && final(self)@ == old(self)@,
    {
        let len = data.len();
        if len == 0 {
            assert(self@ =~= overlay(self@, start as int, data@));
            return Ok(());
        }
        if len > MEMORY_SIZE || (start as usize) > MEMORY_SIZE - len {
            return Err(Fault::AddressOutOfRange);
        }
        let base = start as usize;
        let mut k: usize = 0;
        while k < len
            invariant
                k <= len,
                len == data@.len(),
                base == start,
                base + len <= MEMORY_SIZE,
                forall|a: int|
                    0 <= a < MEMORY_SIZE ==> self.bytes@[a] == if base <= a < base + k {
                        data@[a - base]
                    } else {
                        old(self).bytes@[a]
                    },
            decreases len - k,
        {
            self.bytes[base + k] = data[k];
            k = k + 1;
        }
        assert(self@ =~= overlay(old(self)@, start as int, data@));
        Ok(())
    }

    /// Places a program at `PROGRAM_START`. A program longer than the space
    /// from there to the end of memory is rejected with `ProgramTooLarge`
    /// before any byte is copied. Bytes outside the program's range keep
    /// their values, the font among them.
    pub fn load_program(&mut self, data: &[u8]) -> (result: Result<(), Fault>)
        ensures
            data@.len() <= MEMORY_SIZE - PROGRAM_START ==> result is Ok && final(self)@ == overlay(
                old(self)@,
                PROGRAM_START as int,
                data@,
            ),
            data@.len() > MEMORY_SIZE - PROGRAM_START ==> result == Err::<(), Fault>(
                Fault::ProgramTooLarge,
            ) && final(self)@ == old(self)@,
    {
        if data.len() > MEMORY_SIZE - PROGRAM_START as usize {
            return Err(Fault::ProgramTooLarge);
        }
        self.write_block(PROGRAM_START, data)
    }
}

} // verus!
