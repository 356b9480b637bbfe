//! The general-purpose registers `V0` to `VF` and the index register `I`.

use crate::io::{MemoryError, Read, Write, overwritten};
use vstd::prelude::*;

verus! {

/// How many general-purpose registers the machine has.
pub const REGISTER_COUNT: usize = 16;

/// The sixteen general-purpose byte registers, V0 to VF.
#[derive(Debug)]
pub struct V {
    v: [u8; 16],
}

impl View for V {
    type V = Seq<u8>;

    closed spec fn view(&self) -> Seq<u8> {
        self.v@
    }
}

impl V {
    /// Sixteen registers that hold zero.
    pub fn new() -> (v: Self)
        ensures
            v@ == Seq::new(16, |k: int| 0u8),
    {
        V { v: [0u8;16] }
    }

    /// There are always sixteen registers.
    pub proof fn lemma_size(&self)
        ensures
            self@.len() == 16,
    {
    }
}

impl Read for V {
    type Bit = u8;

    type Address = u8;

    open spec fn cells(&self) -> Seq<u8> {
        self@
    }

    open spec fn position(address: u8) -> nat {
        address as nat
    }

    fn read(&self, address: u8) -> (result: Result<u8, MemoryError>) {
        let index: usize = address as usize;
        if index < REGISTER_COUNT {
            Ok(self.v[index])
        } else {
            Err(MemoryError::OutOfBounds)
        }
    }

    fn read_range(&self, start_address: u8, end_offset: u8) -> (result: Result<
        &[u8],
        MemoryError,
    >) {
        let start: usize = start_address as usize;
        let end: usize = start + end_offset as usize;
        if end > REGISTER_COUNT {
            return Err(MemoryError::OutOfBounds);
        }
        Ok(vstd::slice::slice_subrange(self.v.as_slice(), start, end))
    }
}

impl Write for V {
    type Bit = u8;

    type Address = u8;

    open spec fn cells(&self) -> Seq<u8> {
        self@
    }

    open spec fn position(address: u8) -> nat {
        address as nat
    }

    fn write(&mut self, address: u8, data: u8) -> (result: Result<(), MemoryError>) {
        let index: usize = address as usize;
        if index < REGISTER_COUNT {
            self.v[index] = data;
            Ok(())
        } else {
            Err(MemoryError::OutOfBounds)
        }
    }

    fn write_buf(&mut self, start_address: u8, data: &[u8]) -> (result: Result<(), MemoryError>) {
        let start: usize = start_address as usize;
        if start > REGISTER_COUNT || data.len() > REGISTER_COUNT - start {
            return Err(MemoryError::OutOfBounds);
        }
        let mut done: usize = 0;
        while done < data.len()
            invariant
                done <= data.len(),
                start + data.len() <= 16,
                self@ == overwritten(old(self)@, start as nat, data@.take(done as int)),
            decreases data.len() - done,
        {
            self.v[start + done] = data[done];
            done += 1;
        }
        assert(data@.take(done as int) == data@);
        Ok(())
    }
}

/// The 16-bit index register.
#[derive(Debug)]
pub struct I {
    i: u16,
}

impl View for I {
    type V = u16;

    closed spec fn view(&self) -> u16 {
        self.i
    }
}

impl I {
    /// An index register that holds zero.
    pub fn new() -> (i: Self)
        ensures
            i@ == 0,
    {
        I { i: 0 }
    }

    /// The value of the register.
    pub fn read(&self) -> (data: u16)
        ensures
            data == self@,
    {
        self.i
    }

    /// Sets the register to `data`; every 16-bit value is accepted.
    pub fn write(&mut self, data: u16)
        ensures
            final(self)@ == data,
    {
        self.i = data;
    }
}

} // verus!
