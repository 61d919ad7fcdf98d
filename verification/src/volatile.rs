//! Safe ways to interact with volatile shared buffers.
//!
//! A `VolatileBuf` stands for a region of client-controlled shared memory. Only
//! copying to and from the region (or its indices) is offered, and which of the
//! two is allowed is decided by the access type `A`.
use vstd::prelude::*;

use crate::access::{NoAccess, Readable, Writable};
use crate::error::{Error, ErrorKind};
use core::marker::PhantomData;

verus! {

/// A volatile buffer of `capacity` bytes at the client address `addr`, whose
/// bytes are `cells` (which hold at least `capacity` bytes for a buffer that
/// can be read or written).
#[derive(Debug)]
pub struct VolatileBuf<'parameter, A> {
    pub addr: usize,
    pub capacity: usize,
    pub cells: &'parameter mut Vec<u8>,
    pub access: PhantomData<A>,
}

impl<'parameter, A> VolatileBuf<'parameter, A> {
    /// The bytes that the buffer currently holds.
    pub open spec fn spec_cells(&self) -> Seq<u8> {
        (*self.cells)@
    }

    /// The region covers `capacity` bytes of `cells`.
    pub open spec fn spec_well_formed(&self) -> bool {
        self.capacity <= self.spec_cells().len()
    }

    /// A buffer over the first `capacity` bytes of `cells`.
    pub(crate) fn new(addr: usize, cells: &'parameter mut Vec<u8>, capacity: usize) -> (buf: Self)
        requires
            capacity <= old(cells)@.len(),
        ensures
            buf.addr == addr,
            buf.capacity == capacity,
            *buf.cells == *old(cells),
            *final(cells) == *final(buf.cells),
            buf.spec_well_formed(),
    {
        VolatileBuf { addr, capacity, cells, access: PhantomData }
    }

    /// The maximum number of elements in the buffer.
    pub fn capacity(&self) -> (capacity: usize)
        ensures
            capacity == self.capacity,
    {
        self.capacity
    }

    /// The client address of the buffer.
    pub fn raw(&self) -> (addr: usize)
        ensures
            addr == self.addr,
    {
        self.addr
    }
}

impl<'parameter> VolatileBuf<'parameter, NoAccess> {
    /// A buffer that nobody can read or write through.
    pub fn new_no_access(addr: usize, cells: &'parameter mut Vec<u8>, capacity: usize) -> (buf:
        Self)
        ensures
            buf.addr == addr,
            buf.capacity == capacity,
            *buf.cells == *old(cells),
            *final(cells) == *final(buf.cells),
    {
        VolatileBuf { addr, capacity, cells, access: PhantomData }
    }
}

impl<'parameter, A: Readable> VolatileBuf<'parameter, A> {
    /// Copies the buffer to the front of `out`; fails, leaving `out`
    /// untouched, when `out` is shorter than the capacity.
    pub fn copy_to(&self, out: &mut [u8]) -> (res: Result<(), InsufficientBufferSizeErr>)
        requires
            self.spec_well_formed(),
        ensures
            res is Ok <==> old(out)@.len() >= self.capacity,
            res is Ok ==> final(out)@ == self.spec_cells().subrange(0, self.capacity as int) + old(out)@.subrange(self.capacity as int, old(out)@.len() as int),
            res is Err ==> final(out)@ == old(out)@,
    {
        if out.len() < self.capacity {
            return Err(InsufficientBufferSizeErr);
        }
        let mut idx: usize = 0;
        while idx < self.capacity
            invariant
                self.spec_well_formed(),
                idx <= self.capacity <= out@.len(),
                out@.len() == old(out)@.len(),
                forall|k: int| 0 <= k < idx ==> out@[k] == self.spec_cells()[k],
                forall|k: int| idx <= k < out@.len() ==> out@[k] == old(out)@[k],
            decreases self.capacity - idx,
        {
            out[idx] = self.cells[idx];
            idx = idx + 1;
        }
        assert(out@ =~= self.spec_cells().subrange(0, self.capacity as int) + old(out)@.subrange(
            self.capacity as int,
            old(out)@.len() as int,
        ));
        Ok(())
    }

    /// The byte at `index`, or `OutOfBoundsErr` when `index` is not below the
    /// capacity.
    pub fn read(&self, index: usize) -> (res: Result<u8, OutOfBoundsErr>)
        requires
            self.spec_well_formed(),
        ensures
            res is Ok <==> index < self.capacity,
            res is Ok ==> res->Ok_0 == self.spec_cells()[index as int],
    {
        if index >= self.capacity {
            return Err(OutOfBoundsErr);
        }
        Ok(self.cells[index])
    }
}

impl<'parameter, A: Writable> VolatileBuf<'parameter, A> {
    /// Copies `values` to the front of the buffer; fails, leaving the buffer
    /// untouched, when `values` is longer than the capacity.
    pub fn copy_from(&mut self, values: &[u8]) -> (res: Result<(), InsufficientBufferSizeErr>)
        requires
            old(self).spec_well_formed(),
        ensures
            res is Ok <==> values@.len() <= old(self).capacity,
            res is Ok ==> final(self).spec_cells() == values@ + old(self).spec_cells().subrange(
                values@.len() as int,
                old(self).spec_cells().len() as int,
            ),
            res is Err ==> final(self).spec_cells() == old(self).spec_cells(),
            final(self).addr == old(self).addr,
            final(self).capacity == old(self).capacity,
            *final(final(self).cells) == *final(old(self).cells),
    {
        if values.len() > self.capacity {
            return Err(InsufficientBufferSizeErr);
        }
        let mut idx: usize = 0;
        while idx < values.len()
            invariant
                idx <= values@.len() <= self.capacity <= self.spec_cells().len(),
                self.spec_cells().len() == old(self).spec_cells().len(),
                self.addr == old(self).addr,
                self.capacity == old(self).capacity,
                *final(self.cells) == *final(old(self).cells),
                forall|k: int| 0 <= k < idx ==> self.spec_cells()[k] == values@[k],
                forall|k: int| idx <= k < self.spec_cells().len() ==> self.spec_cells()[k] == old(self).spec_cells()[k],
            decreases values@.len() - idx,
        {
            self.cells.set(idx, values[idx]);
            idx = idx + 1;
        }
        assert(self.spec_cells() =~= values@ + old(self).spec_cells().subrange(
            values@.len() as int,
            old(self).spec_cells().len() as int,
        ));
        Ok(())
    }

    /// Writes `value` at `index`, or fails with `OutOfBoundsErr` when `index`
    /// is not below the capacity.
    pub fn write(&mut self, index: usize, value: u8) -> (res: Result<(), OutOfBoundsErr>)
        requires
            old(self).spec_well_formed(),
        ensures
            res is Ok <==> index < old(self).capacity,
            res is Ok ==> final(self).spec_cells() == old(self).spec_cells().update(index as int, value),
            res is Err ==> final(self).spec_cells() == old(self).spec_cells(),
            final(self).addr == old(self).addr,
            final(self).capacity == old(self).capacity,
            *final(final(self).cells) == *final(old(self).cells),
    {
        if index >= self.capacity {
            return Err(OutOfBoundsErr);
        }
        self.cells.set(index, value);
        Ok(())
    }
}

/// Copying would fail due to an insufficiently sized buffer.
#[derive(Debug)]
pub struct InsufficientBufferSizeErr;

impl InsufficientBufferSizeErr {
    /// The description of this error.
    pub fn message(&self) -> (message: &'static str)
        ensures
            message@ == "copy would fail due to insufficiently sized buffer"@,
    {
        "copy would fail due to insufficiently sized buffer"
    }
}

impl vstd::std_specs::convert::FromSpecImpl<InsufficientBufferSizeErr> for Error {
    open spec fn obeys_from_spec() -> bool {
        true
    }

    open spec fn from_spec(value: InsufficientBufferSizeErr) -> Error {
        Error::spec_new(ErrorKind::ShortBuffer)
    }
}

impl From<InsufficientBufferSizeErr> for Error {
    fn from(value: InsufficientBufferSizeErr) -> (error: Error)
        ensures
            error.spec_kind() == ErrorKind::ShortBuffer,
    {
        Error::new(ErrorKind::ShortBuffer)
    }
}

/// An index outside the buffer.
#[derive(Debug, Clone)]
pub struct OutOfBoundsErr;

impl OutOfBoundsErr {
    /// The description of this error.
    pub fn message(&self) -> (message: &'static str)
        ensures
            message@ == "index out of bounds"@,
    {
        "index out of bounds"
    }
}

impl vstd::std_specs::convert::FromSpecImpl<OutOfBoundsErr> for Error {
    open spec fn obeys_from_spec() -> bool {
        true
    }

    open spec fn from_spec(value: OutOfBoundsErr) -> Error {
        Error::spec_new(ErrorKind::Overflow)
    }
}

impl From<OutOfBoundsErr> for Error {
    fn from(value: OutOfBoundsErr) -> (error: Error)
        ensures
            error.spec_kind() == ErrorKind::Overflow,
    {
        Error::new(ErrorKind::Overflow)
    }
}

/// A byte written at an index is the byte read back there: the cells after a
/// successful `write(index, value)` hold `value` at `index` and are unchanged
/// elsewhere.
pub proof fn lemma_write_then_read(cells: Seq<u8>, index: int, value: u8)
    requires
        0 <= index < cells.len(),
    ensures
        cells.update(index, value)[index] == value,
        forall|k: int| 0 <= k < cells.len() && k != index ==> #[trigger] cells.update(index, value)[k]
            == cells[k],
{
}

/// What `copy_from(values)` writes, `copy_to` hands back: the cells after a
/// successful `copy_from` begin with `values`, and copying them out (with a
/// capacity of at least that length) puts `values` in front of the output.
pub proof fn lemma_copy_from_then_copy_to(
    cells: Seq<u8>,
    values: Seq<u8>,
    out: Seq<u8>,
    capacity: nat,
)
    requires
        values.len() <= capacity <= cells.len(),
        out.len() >= capacity,
    ensures
        ({
            let written = values + cells.subrange(values.len() as int, cells.len() as int);
            let copied = written.subrange(0, capacity as int) + out.subrange(
                capacity as int,
                out.len() as int,
            );
            copied.subrange(0, values.len() as int) == values
        }),
{
    let written = values + cells.subrange(values.len() as int, cells.len() as int);
    let copied = written.subrange(0, capacity as int) + out.subrange(
        capacity as int,
        out.len() as int,
    );
    assert(copied.subrange(0, values.len() as int) =~= values);
}

} // verus!
