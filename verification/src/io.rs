//! Reading and writing stores of cells, and the errors of the memory, the
//! registers and the call stack.

use vstd::prelude::*;

verus! {

/// Why an access to memory, to the registers or to the call stack failed.
#[derive(Debug, Clone, Copy, PartialEq, Eq, Structural)]
pub enum MemoryError {
    /// An address or a register index, or the end of a range, lies outside
    /// the store.
    OutOfBounds,
    /// The length of a range cannot be written in the store's address type,
    /// as the 256 registers from `V[0]` to `V[255]` cannot in a byte.
    InvalidRange,
    /// A push onto a full call stack.
    StackOverflow,
    /// A pop from an empty call stack.
    StackUnderflow,
}

/// What reading the cell at `position` of `cells` gives: the cell, or
/// `OutOfBounds` past the end.
pub open spec fn cell_at<B>(cells: Seq<B>, position: nat) -> Result<B, MemoryError> {
    if position < cells.len() {
        Ok(cells[position as int])
    } else {
        Err(MemoryError::OutOfBounds)
    }
}

/// What reading the `length` cells of `cells` from `start` on gives: those
/// cells, or `OutOfBounds` where they do not all lie inside `cells`.
pub open spec fn span_at<B>(cells: Seq<B>, start: nat, length: nat) -> Result<
    Seq<B>,
    MemoryError,
> {
    if start + length <= cells.len() {
        Ok(cells.subrange(start as int, (start + length) as int))
    } else {
        Err(MemoryError::OutOfBounds)
    }
}

/// What putting `data` into the cell at `position` makes of `cells`, or
/// `OutOfBounds` past the end.
pub open spec fn stored<B>(cells: Seq<B>, position: nat, data: B) -> Result<Seq<B>, MemoryError> {
    if position < cells.len() {
        Ok(cells.update(position as int, data))
    } else {
        Err(MemoryError::OutOfBounds)
    }
}

/// `cells` with `data` copied over the run that starts at `start`.
pub open spec fn overwritten<B>(cells: Seq<B>, start: nat, data: Seq<B>) -> Seq<B> {
    Seq::new(
        cells.len(),
        |k: int|
            if start <= k < start + data.len() {
                data[k - start]
            } else {
                cells[k]
            },
    )
}

/// What copying `data` over the cells from `start` on makes of `cells`, or
/// `OutOfBounds` where the run does not end inside `cells`.
pub open spec fn stored_span<B>(cells: Seq<B>, start: nat, data: Seq<B>) -> Result<
    Seq<B>,
    MemoryError,
> {
    if start + data.len() <= cells.len() {
        Ok(overwritten(cells, start, data))
    } else {
        Err(MemoryError::OutOfBounds)
    }
}

/// Whether `result` and the state `after` are what `expected` asks for of a
/// step that began in the state `before`: on success the new state, on
/// failure the error and the state of before.
pub open spec fn follows<S, E>(
    before: S,
    expected: Result<S, E>,
    result: Result<(), E>,
    after: S,
) -> bool {
    match expected {
        Ok(state) => result is Ok && after == state,
        Err(fault) => result == Err::<(), E>(fault) && after == before,
    }
}

/// A store whose cells can be read one at a time or as a contiguous run.
pub trait Read {
    type Bit;

    type Address;

    /// The cells of the store, in address order.
    spec fn cells(&self) -> Seq<Self::Bit>;

    /// The position that an address names.
    spec fn position(address: Self::Address) -> nat;

    /// The cell at `address`; `OutOfBounds` when the store has no such cell.
    fn read(&self, address: Self::Address) -> (result: Result<Self::Bit, MemoryError>)
        ensures
            result == cell_at(self.cells(), Self::position(address)),
    ;

    /// The `end_offset` cells that start at `start_address`; `OutOfBounds`
    /// when the run does not end inside the store, be its end an address or
    /// beyond all addresses. A length that is given as an address can always
    /// be written as one, so that no call gives `InvalidRange`.
    fn read_range(&self, start_address: Self::Address, end_offset: Self::Address) -> (result:
        Result<&[Self::Bit], MemoryError>)
        ensures
            match span_at(
                self.cells(),
                Self::position(start_address),
                Self::position(end_offset),
            ) {
                Ok(run) => result is Ok && result->Ok_0@ == run,
                Err(fault) => result == Err::<&[Self::Bit], MemoryError>(fault),
            },
    ;
}

/// A store whose cells can be overwritten one at a time or as a contiguous
/// run. A write that fails changes nothing.
pub trait Write {
    type Bit;

    type Address;

    /// The cells of the store, in address order.
    spec fn cells(&self) -> Seq<Self::Bit>;

    /// The position that an address names.
    spec fn position(address: Self::Address) -> nat;

    /// Puts `data` into the cell at `address`; `OutOfBounds` when the store
    /// has no such cell.
    fn write(&mut self, address: Self::Address, data: Self::Bit) -> (result: Result<
        (),
        MemoryError,
    >)
        ensures
            follows(
                old(self).cells(),
                stored(old(self).cells(), Self::position(address), data),
                result,
                final(self).cells(),
            ),
    ;

    /// Copies `data` over the cells that start at `start_address`;
    /// `OutOfBounds` when the run does not end inside the store.
    fn write_buf(&mut self, start_address: Self::Address, data: &[Self::Bit]) -> (result: Result<
        (),
        MemoryError,
    >)
        ensures
            follows(
                old(self).cells(),
                stored_span(old(self).cells(), Self::position(start_address), data@),
                result,
                final(self).cells(),
            ),
    ;
}

/// A cell that was written reads back as what was written; and an address
/// that cannot be read cannot be written, both give `OutOfBounds`.
pub proof fn lemma_write_then_read<B>(cells: Seq<B>, position: nat, data: B)
    ensures
        position < cells.len() ==> stored(cells, position, data) is Ok && cell_at(
            stored(cells, position, data)->Ok_0,
            position,
        ) == Ok::<B, MemoryError>(data),
        position >= cells.len() ==> stored(cells, position, data) == Err::<Seq<B>, MemoryError>(
            MemoryError::OutOfBounds,
        ) && cell_at(cells, position) == Err::<B, MemoryError>(MemoryError::OutOfBounds),
{
}

/// A write changes the cell it names and no other.
pub proof fn lemma_write_keeps_the_rest<B>(cells: Seq<B>, position: nat, data: B, other: nat)
    requires
        position < cells.len(),
        other != position,
    ensures
        cell_at(stored(cells, position, data)->Ok_0, other) == cell_at(cells, other),
{
}

/// A run of cells that was written reads back as what was written.
pub proof fn lemma_write_buf_then_read_range<B>(cells: Seq<B>, start: nat, data: Seq<B>)
    requires
        start + data.len() <= cells.len(),
    ensures
        span_at(stored_span(cells, start, data)->Ok_0, start, data.len()) == Ok::<
            Seq<B>,
            MemoryError,
        >(data),
{
    assert(overwritten(cells, start, data).subrange(start as int, (start + data.len()) as int)
        =~= data);
}

} // verus!
