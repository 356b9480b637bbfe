//! The memory and the call stack.

use crate::io::{
    MemoryError, Read, Write, cell_at, follows, lemma_write_then_read, overwritten, stored,
};
use vstd::prelude::*;

verus! {

/// How many bytes the machine's memory holds.
pub const RAM_SIZE: usize = 4096;

/// How many return addresses the call stack holds.
pub const STACK_DEPTH: usize = 16;

/// The machine's memory: 4096 bytes, addressed from 0x000 to 0xFFF.
#[derive(Debug)]
pub struct RAM {
    memory: [u8; 4096],
}

impl View for RAM {
    type V = Seq<u8>;

    closed spec fn view(&self) -> Seq<u8> {
        self.memory@
    }
}

impl RAM {
    /// A memory of 4096 zero bytes.
    pub fn new() -> (ram: Self)
        ensures
            ram@ == Seq::new(4096, |k: int| 0u8),
    {
        RAM { memory: [0u8;4096] }
    }

    /// The memory always holds 4096 bytes.
    pub proof fn lemma_size(&self)
        ensures
            self@.len() == 4096,
    {
    }
}

impl Read for RAM {
    type Bit = u8;

    type Address = u16;

    open spec fn cells(&self) -> Seq<u8> {
        self@
    }

    open spec fn position(address: u16) -> nat {
        address as nat
    }

    fn read(&self, address: u16) -> (result: Result<u8, MemoryError>) {
        let index: usize = address as usize;
        if index < RAM_SIZE {
            Ok(self.memory[index])
        } else {
            Err(MemoryError::OutOfBounds)
        }
    }

    fn read_range(&self, start_address: u16, end_offset: u16) -> (result: Result<
        &[u8],
        MemoryError,
    >) {
        let start: usize = start_address as usize;
        let end: usize = start + end_offset as usize;
        if end > RAM_SIZE {
            return Err(MemoryError::OutOfBounds);
        }
        Ok(vstd::slice::slice_subrange(self.memory.as_slice(), start, end))
    }
}

impl Write for RAM {
    type Bit = u8;

    type Address = u16;

    open spec fn cells(&self) -> Seq<u8> {
        self@
    }

    open spec fn position(address: u16) -> nat {
        address as nat
    }

    fn write(&mut self, address: u16, data: u8) -> (result: Result<(), MemoryError>) {
        let index: usize = address as usize;
        if index < RAM_SIZE {
            self.memory[index] = data;
            Ok(())
        } else {
            Err(MemoryError::OutOfBounds)
        }
    }

    fn write_buf(&mut self, start_address: u16, data: &[u8]) -> (result: Result<(), MemoryError>) {
        let start: usize = start_address as usize;
        if start > RAM_SIZE || data.len() > RAM_SIZE - start {
            return Err(MemoryError::OutOfBounds);
        }
        let mut done: usize = 0;
        while done < data.len()
            invariant
                done <= data.len(),
                start + data.len() <= 4096,
                self@ == overwritten(old(self)@, start as nat, data@.take(done as int)),
            decreases data.len() - done,
        {
            self.memory[start + done] = data[done];
            done += 1;
        }
        assert(data@.take(done as int) == data@);
        Ok(())
    }
}

/// A byte that was written to an address below 4096 reads back from it;
/// from 4096 on, writing and reading both fail with `OutOfBounds`.
pub proof fn lemma_memory_write_then_read(ram: RAM, address: u16, data: u8)
    ensures
        address < 4096 ==> stored(ram@, address as nat, data) is Ok && cell_at(
            stored(ram@, address as nat, data)->Ok_0,
            address as nat,
        ) == Ok::<u8, MemoryError>(data),
        address >= 4096 ==> stored(ram@, address as nat, data) == Err::<Seq<u8>, MemoryError>(
            MemoryError::OutOfBounds,
        ) && cell_at(ram@, address as nat) == Err::<u8, MemoryError>(MemoryError::OutOfBounds),
{
    ram.lemma_size();
    lemma_write_then_read(ram@, address as nat, data);
}

/// What pushing `data` makes of a stack, its oldest address first:
/// `StackOverflow` where the stack already holds 16 addresses.
pub open spec fn pushed(stack: Seq<u16>, data: u16) -> Result<Seq<u16>, MemoryError> {
    if stack.len() < 16 {
        Ok(stack.push(data))
    } else {
        Err(MemoryError::StackOverflow)
    }
}

/// What a pop gives and leaves of a stack, its oldest address first: the
/// latest address and the ones before it, or `StackUnderflow` where the
/// stack is empty.
pub open spec fn popped(stack: Seq<u16>) -> Result<(u16, Seq<u16>), MemoryError> {
    if stack.len() > 0 {
        Ok((stack.last(), stack.drop_last()))
    } else {
        Err(MemoryError::StackUnderflow)
    }
}

/// What pushing the addresses of `data` one after another, the first one
/// first, makes of a stack.
pub open spec fn pushed_all(stack: Seq<u16>, data: Seq<u16>) -> Result<Seq<u16>, MemoryError>
    decreases data.len(),
{
    if data.len() == 0 {
        Ok(stack)
    } else {
        match pushed(stack, data.first()) {
            Ok(higher) => pushed_all(higher, data.drop_first()),
            Err(fault) => Err(fault),
        }
    }
}

/// What `count` pops give, the first pop first, and leave of a stack.
pub open spec fn popped_all(stack: Seq<u16>, count: nat) -> Result<
    (Seq<u16>, Seq<u16>),
    MemoryError,
>
    decreases count,
{
    if count == 0 {
        Ok((Seq::empty(), stack))
    } else {
        match popped(stack) {
            Ok((top, lower)) => match popped_all(lower, (count - 1) as nat) {
                Ok((taken, rest)) => Ok((seq![top] + taken, rest)),
                Err(fault) => Err(fault),
            },
            Err(fault) => Err(fault),
        }
    }
}

/// The call stack: up to 16 return addresses, the latest on top.
#[derive(Debug)]
pub struct Stack {
    stack_pointer: u8,
    stack: [u16; 16],
}

impl View for Stack {
    type V = Seq<u16>;

    /// The addresses on the stack, the oldest first.
    closed spec fn view(&self) -> Seq<u16> {
        self.stack@.take(self.stack_pointer as int)
    }
}

impl Stack {
    #[verifier::type_invariant]
    spec fn well_formed(&self) -> bool {
        self.stack_pointer <= 16
    }

    /// An empty stack.
    pub fn new() -> (stack: Self)
        ensures
            stack@ == Seq::<u16>::empty(),
    {
        Stack { stack_pointer: 0, stack: [0u16;16] }
    }

    /// How many addresses the stack holds: never more than 16.
    pub fn depth(&self) -> (depth: usize)
        ensures
            depth == self@.len(),
            depth <= 16,
    {
        proof {
            use_type_invariant(self);
        }
        self.stack_pointer as usize
    }

    /// Pushes data onto the stack; `StackOverflow` when it already holds 16
    /// addresses.
    pub fn push(&mut self, data: u16) -> (result: Result<(), MemoryError>)
        ensures
            follows(old(self)@, pushed(old(self)@, data), result, final(self)@),
    {
        proof {
            use_type_invariant(&*self);
        }
        if self.stack_pointer as usize >= STACK_DEPTH {
            return Err(MemoryError::StackOverflow);
        }
        self.stack[self.stack_pointer as usize] = data;
        self.stack_pointer += 1;
        assert(self@ == old(self)@.push(data));
        Ok(())
    }

    /// Takes the top element off the stack and returns it; `StackUnderflow`
    /// when the stack is empty.
    pub fn pop(&mut self) -> (result: Result<u16, MemoryError>)
        ensures
            match popped(old(self)@) {
                Ok((top, rest)) => result == Ok::<u16, MemoryError>(top) && final(self)@ == rest,
                Err(fault) => result == Err::<u16, MemoryError>(fault)
                    && final(self)@ == old(self)@,
            },
    {
        proof {
            use_type_invariant(&*self);
        }
        if self.stack_pointer == 0 {
            return Err(MemoryError::StackUnderflow);
        }
        self.stack_pointer -= 1;
        Ok(self.stack[self.stack_pointer as usize])
    }
}

/// Last in, first out: a pop gives back what the push before it put in, and
/// leaves the stack as it was before that push.
pub proof fn lemma_push_then_pop(stack: Seq<u16>, data: u16)
    requires
        stack.len() < 16,
    ensures
        pushed(stack, data) is Ok,
        popped(pushed(stack, data)->Ok_0) == Ok::<(u16, Seq<u16>), MemoryError>((data, stack)),
{
    assert(stack.push(data).drop_last() =~= stack);
}

/// As many pushes succeed as there is room for: they put the addresses on
/// top of the stack in the order given.
pub proof fn lemma_pushes_stack_up(stack: Seq<u16>, data: Seq<u16>)
    requires
        stack.len() + data.len() <= 16,
    ensures
        pushed_all(stack, data) == Ok::<Seq<u16>, MemoryError>(stack + data),
    decreases data.len(),
{
    if data.len() > 0 {
        lemma_pushes_stack_up(stack.push(data.first()), data.drop_first());
        assert(stack.push(data.first()) + data.drop_first() =~= stack + data);
    }
}

/// Addresses come off the stack in the reverse of the order in which they
/// went on: after pushes that all succeeded, as many pops give the pushed
/// addresses backwards and leave the stack as it was.
pub proof fn lemma_pops_reverse_pushes(stack: Seq<u16>, data: Seq<u16>)
    requires
        stack.len() + data.len() <= 16,
    ensures
        pushed_all(stack, data) is Ok,
        popped_all(pushed_all(stack, data)->Ok_0, data.len()) == Ok::<
            (Seq<u16>, Seq<u16>),
            MemoryError,
        >((data.reverse(), stack)),
    decreases data.len(),
{
    lemma_pushes_stack_up(stack, data);
    if data.len() > 0 {
        let all = stack + data;
        assert(all.drop_last() =~= stack + data.drop_last());
        lemma_pops_reverse_pushes(stack, data.drop_last());
        lemma_pushes_stack_up(stack, data.drop_last());
        assert(seq![data.last()] + data.drop_last().reverse() =~= data.reverse());
    }
}

} // verus!
