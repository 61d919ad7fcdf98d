//! Type-safe wrappers for TEE parameters: the direction of the data (host to
//! TA, TA to host, or both) is encoded in the type.
//!
//! | Type | Host → TA | TA → Host |
//! |---|---|---|
//! | `ParameterValueInput`, `ParameterMemrefInput` | ✓ | ✗ |
//! | `ParameterValueOutput`, `ParameterMemrefOutput` | ✗ | ✓ |
//! | `ParameterValueInout`, `ParameterMemrefInout` | ✓ | ✓ |
use vstd::prelude::*;

use crate::error::{Error, ErrorKind, Result};
use crate::parameter::{spec_param_type_of, ParamType};
use crate::raw::{TeeParam, TeeValue};

verus! {

/// Succeeds when the raw type code `raw_type` is the parameter type
/// `expected`; fails with `BadParameters` otherwise.
pub fn check_type_is(raw_type: u32, expected: ParamType) -> (res: Result<()>)
    ensures
        res is Ok <==> spec_param_type_of(raw_type) == expected,
        res is Err ==> res->Err_0.spec_kind() == ErrorKind::BadParameters,
{
    let actual = ParamType::from(raw_type);
    if actual == expected {
        Ok(())
    } else {
        Err(Error::new(ErrorKind::BadParameters))
    }
}

/// Whether a raw slot's memory reference holds at least the `size` bytes
/// it reports.
pub open spec fn memref_covers_size(raw_param: TeeParam) -> bool {
    raw_param.memref.size <= raw_param.memref.contents@.len()
}

/// Read-only access to the two values of a value parameter.
pub trait ParameterValueRead {
    /// The two values.
    spec fn spec_value(&self) -> TeeValue;

    /// Returns the `a` field.
    fn get_a(&self) -> (a: u32)
        ensures
            a == self.spec_value().a,
    ;

    /// Returns the `b` field.
    fn get_b(&self) -> (b: u32)
        ensures
            b == self.spec_value().b,
    ;
}

/// Write access to the two values of a value parameter; the host reads back
/// what was written once the invocation completes.
pub trait ParameterValueWrite {
    /// The two values in the parameter slot.
    spec fn spec_slot(&self) -> TeeValue;

    /// Sets the `a` field.
    fn set_a(&mut self, a: u32)
        ensures
            final(self).spec_slot() == (TeeValue { a, b: old(self).spec_slot().b }),
    ;

    /// Sets the `b` field.
    fn set_b(&mut self, b: u32)
        ensures
            final(self).spec_slot() == (TeeValue { a: old(self).spec_slot().a, b }),
    ;
}

/// A value input parameter; its values are copied out of the slot.
pub struct ParameterValueInput {
    a: u32,
    b: u32,
}

/// A value output parameter, writing into its slot.
pub struct ParameterValueOutput<'a>(pub &'a mut TeeParam);

/// A value in/out parameter, reading and writing its slot.
pub struct ParameterValueInout<'a>(pub &'a mut TeeParam);

impl ParameterValueInput {
    /// The input parameter of a slot whose raw type is `ValueInput`; a
    /// `BadParameters` error for any other raw type.
    pub fn from_raw(raw_type: u32, raw_param: &mut TeeParam) -> (res: Result<Self>)
        ensures
            *final(raw_param) == *old(raw_param),
            res is Ok <==> spec_param_type_of(raw_type) == ParamType::ValueInput,
            match res {
                Ok(p) => p.spec_value() == old(raw_param).value,
                Err(e) => e.spec_kind() == ErrorKind::BadParameters,
            },
    {
        check_type_is(raw_type, ParamType::ValueInput)?;
        Ok(Self { a: raw_param.value.a, b: raw_param.value.b })
    }
}

impl<'a> ParameterValueOutput<'a> {
    /// The output parameter of a slot whose raw type is `ValueOutput`; a
    /// `BadParameters` error for any other raw type.
    pub fn from_raw(raw_type: u32, raw_param: &'a mut TeeParam) -> (res: Result<Self>)
        ensures
            res is Ok <==> spec_param_type_of(raw_type) == ParamType::ValueOutput,
            match res {
                Ok(p) => {
                    &&& *p.0 == *old(raw_param)
                    &&& *final(raw_param) == *final(p.0)
                },
                Err(e) => {
                    &&& e.spec_kind() == ErrorKind::BadParameters
                    &&& *final(raw_param) == *old(raw_param)
                },
            },
    {
        match check_type_is(raw_type, ParamType::ValueOutput) {
            Ok(()) => Ok(Self(raw_param)),
            Err(e) => Err(e),
        }
    }
}

impl<'a> ParameterValueInout<'a> {
    /// The in/out parameter of a slot whose raw type is `ValueInout`; a
    /// `BadParameters` error for any other raw type.
    pub fn from_raw(raw_type: u32, raw_param: &'a mut TeeParam) -> (res: Result<Self>)
        ensures
            res is Ok <==> spec_param_type_of(raw_type) == ParamType::ValueInout,
            match res {
                Ok(p) => {
                    &&& *p.0 == *old(raw_param)
                    &&& *final(raw_param) == *final(p.0)
                },
                Err(e) => {
                    &&& e.spec_kind() == ErrorKind::BadParameters
                    &&& *final(raw_param) == *old(raw_param)
                },
            },
    {
        match check_type_is(raw_type, ParamType::ValueInout) {
            Ok(()) => Ok(Self(raw_param)),
            Err(e) => Err(e),
        }
    }
}

impl ParameterValueRead for ParameterValueInput {
    closed spec fn spec_value(&self) -> TeeValue {
        TeeValue { a: self.a, b: self.b }
    }

    fn get_a(&self) -> (a: u32) {
        self.a
    }

    fn get_b(&self) -> (b: u32) {
        self.b
    }
}

impl<'a> ParameterValueRead for ParameterValueInout<'a> {
    open spec fn spec_value(&self) -> TeeValue {
        (*self.0).value
    }

    fn get_a(&self) -> (a: u32) {
        self.0.value.a
    }

    fn get_b(&self) -> (b: u32) {
        self.0.value.b
    }
}

impl<'a> ParameterValueWrite for ParameterValueInout<'a> {
    open spec fn spec_slot(&self) -> TeeValue {
        (*self.0).value
    }

    fn set_a(&mut self, a: u32)
        ensures
            final(self).0.memref == old(self).0.memref,
            *final(final(self).0) == *final(old(self).0),
    {
        self.0.value.a = a;
    }

    fn set_b(&mut self, b: u32)
        ensures
            final(self).0.memref == old(self).0.memref,
            *final(final(self).0) == *final(old(self).0),
    {
        self.0.value.b = b;
    }
}

impl<'a> ParameterValueWrite for ParameterValueOutput<'a> {
    open spec fn spec_slot(&self) -> TeeValue {
        (*self.0).value
    }

    fn set_a(&mut self, a: u32)
        ensures
            final(self).0.memref == old(self).0.memref,
            *final(final(self).0) == *final(old(self).0),
    {
        self.0.value.a = a;
    }

    fn set_b(&mut self, b: u32)
        ensures
            final(self).0.memref == old(self).0.memref,
            *final(final(self).0) == *final(old(self).0),
    {
        self.0.value.b = b;
    }
}

/// Read-only access to a memory-reference parameter's buffer.
pub trait ParameterMemrefRead {
    /// The bytes the buffer presents.
    spec fn spec_buffer(&self) -> Seq<u8>;

    /// The shared region holds the bytes the buffer presents.
    spec fn spec_readable(&self) -> bool;

    /// Returns the buffer contents: for an input parameter the size the host
    /// supplied, for an in/out parameter the full capacity.
    fn get_buffer(&self) -> (buffer: &[u8])
        requires
            self.spec_readable(),
        ensures
            buffer@ == self.spec_buffer(),
    ;
}

/// Write access to a memory-reference parameter's buffer.
pub trait ParameterMemrefWrite {
    /// The maximum allowed size.
    spec fn spec_capacity(&self) -> usize;

    /// The bytes of the shared region.
    spec fn spec_region(&self) -> Seq<u8>;

    /// The size reported to the host.
    spec fn spec_size(&self) -> usize;

    /// Returns the writable buffer: the first `capacity` bytes of the region.
    fn get_buffer_mut(&mut self) -> (buffer: &mut [u8])
        requires
            old(self).spec_capacity() <= old(self).spec_region().len(),
        ensures
            buffer@ == old(self).spec_region().subrange(0, old(self).spec_capacity() as int),
            final(self).spec_region() == final(buffer)@ + old(self).spec_region().subrange(
                old(self).spec_capacity() as int,
                old(self).spec_region().len() as int,
            ),
            final(self).spec_capacity() == old(self).spec_capacity(),
            final(self).spec_size() == old(self).spec_size(),
    ;

    /// Returns the maximum allowed buffer size (capacity).
    fn get_capacity(&self) -> (capacity: usize)
        ensures
            capacity == self.spec_capacity(),
    ;

    /// Sets the reported size; fails with `ShortBuffer`, changing nothing,
    /// when `size` is bigger than the capacity.
    fn set_updated_size(&mut self, size: usize) -> (res: Result<()>)
        ensures
            res is Ok <==> size <= old(self).spec_capacity(),
            res is Ok ==> final(self).spec_size() == size,
            res is Err ==> final(self).spec_size() == old(self).spec_size() && res->Err_0.spec_kind()
                == ErrorKind::ShortBuffer,
            final(self).spec_region() == old(self).spec_region(),
            final(self).spec_capacity() == old(self).spec_capacity(),
    ;

    /// Copies `data` to the front of the buffer and reports its length as the
    /// size; fails with `ShortBuffer`, changing nothing, when `data` is longer
    /// than the capacity.
    fn set_output(&mut self, data: &[u8]) -> (res: Result<()>)
        requires
            old(self).spec_capacity() <= old(self).spec_region().len(),
        ensures
            res is Ok <==> data@.len() <= old(self).spec_capacity(),
            res is Ok ==> final(self).spec_size() == data@.len() && final(self).spec_region()
                == data@ + old(self).spec_region().subrange(
                data@.len() as int,
                old(self).spec_region().len() as int,
            ),
            res is Err ==> final(self).spec_size() == old(self).spec_size() && final(self).spec_region() == old(self).spec_region() && res->Err_0.spec_kind()
                == ErrorKind::ShortBuffer,
            final(self).spec_capacity() == old(self).spec_capacity(),
    ;

    /// Copies `data` into the buffer at `offset` and reports `offset` plus its
    /// length as the size; fails with `ShortBuffer`, changing nothing, when
    /// that size would exceed the capacity (or not even fit in a `usize`).
    fn write_at(&mut self, offset: usize, data: &[u8]) -> (res: Result<()>)
        requires
            old(self).spec_capacity() <= old(self).spec_region().len(),
        ensures
            res is Ok <==> offset + data@.len() <= old(self).spec_capacity(),
            res is Ok ==> final(self).spec_size() == offset + data@.len() && final(self).spec_region() == old(self).spec_region().subrange(0, offset as int) + data@ + old(self).spec_region().subrange(offset + data@.len(), old(self).spec_region().len() as int),
            res is Err ==> final(self).spec_size() == old(self).spec_size() && final(self).spec_region() == old(self).spec_region() && res->Err_0.spec_kind()
                == ErrorKind::ShortBuffer,
            final(self).spec_capacity() == old(self).spec_capacity(),
    ;

    /// Sets the reported size, which must not exceed the capacity.
    fn set_updated_size_unchecked(&mut self, size: usize)
        requires
            size <= old(self).spec_capacity(),
        ensures
            final(self).spec_size() == size,
            final(self).spec_region() == old(self).spec_region(),
            final(self).spec_capacity() == old(self).spec_capacity(),
    ;
}

/// A memory-reference input parameter: the host passes a read-only buffer.
pub struct ParameterMemrefInput<'a>(pub &'a TeeParam);

/// A memory-reference in/out parameter: the host passes a read-write buffer.
pub struct ParameterMemrefInout<'a> {
    pub capacity: usize,
    pub raw_param: &'a mut TeeParam,
}

/// A memory-reference output parameter: the host provides a write-only buffer.
pub struct ParameterMemrefOutput<'a> {
    pub capacity: usize,
    pub raw_param: &'a mut TeeParam,
}

impl<'a> ParameterMemrefInput<'a> {
    /// The input parameter of a slot whose raw type is `MemrefInput`; a
    /// `BadParameters` error for any other raw type. The slot's region must
    /// hold the size it reports.
    pub fn from_raw(raw_type: u32, raw_param: &'a TeeParam) -> (res: Result<Self>)
        requires
            memref_covers_size(*raw_param),
        ensures
            res is Ok <==> spec_param_type_of(raw_type) == ParamType::MemrefInput,
            match res {
                Ok(p) => *p.0 == *raw_param,
                Err(e) => e.spec_kind() == ErrorKind::BadParameters,
            },
    {
        check_type_is(raw_type, ParamType::MemrefInput)?;
        Ok(Self(raw_param))
    }
}

impl<'a> ParameterMemrefInout<'a> {
    /// The in/out parameter of a slot whose raw type is `MemrefInout`, with the
    /// reported size as capacity; a `BadParameters` error for any other raw
    /// type.
    pub fn from_raw(raw_type: u32, raw_param: &'a mut TeeParam) -> (res: Result<Self>)
        requires
            memref_covers_size(*old(raw_param)),
        ensures
            res is Ok <==> spec_param_type_of(raw_type) == ParamType::MemrefInout,
            match res {
                Ok(p) => {
                    &&& *p.raw_param == *old(raw_param)
                    &&& p.capacity == old(raw_param).memref.size
                    &&& *final(raw_param) == *final(p.raw_param)
                },
                Err(e) => {
                    &&& e.spec_kind() == ErrorKind::BadParameters
                    &&& *final(raw_param) == *old(raw_param)
                },
            },
    {
        match check_type_is(raw_type, ParamType::MemrefInout) {
            Ok(()) => Ok(Self { capacity: raw_param.memref.size, raw_param }),
            Err(e) => Err(e),
        }
    }
}

impl<'a> ParameterMemrefOutput<'a> {
    /// The output parameter of a slot whose raw type is `MemrefOutput`, with
    /// the reported size as capacity; a `BadParameters` error for any other
    /// raw type.
    pub fn from_raw(raw_type: u32, raw_param: &'a mut TeeParam) -> (res: Result<Self>)
        requires
            memref_covers_size(*old(raw_param)),
        ensures
            res is Ok <==> spec_param_type_of(raw_type) == ParamType::MemrefOutput,
            match res {
                Ok(p) => {
                    &&& *p.raw_param == *old(raw_param)
                    &&& p.capacity == old(raw_param).memref.size
                    &&& *final(raw_param) == *final(p.raw_param)
                },
                Err(e) => {
                    &&& e.spec_kind() == ErrorKind::BadParameters
                    &&& *final(raw_param) == *old(raw_param)
                },
            },
    {
        match check_type_is(raw_type, ParamType::MemrefOutput) {
            Ok(()) => Ok(Self { capacity: raw_param.memref.size, raw_param }),
            Err(e) => Err(e),
        }
    }
}

impl<'a> ParameterMemrefRead for ParameterMemrefInput<'a> {
    open spec fn spec_buffer(&self) -> Seq<u8> {
        (*self.0).memref.contents@.subrange(0, (*self.0).memref.size as int)
    }

    open spec fn spec_readable(&self) -> bool {
        memref_covers_size(*self.0)
    }

    fn get_buffer(&self) -> (buffer: &[u8]) {
        let (front, _) = self.0.memref.contents.as_slice().split_at(self.0.memref.size);
        front
    }
}

impl<'a> ParameterMemrefRead for ParameterMemrefInout<'a> {
    open spec fn spec_buffer(&self) -> Seq<u8> {
        (*self.raw_param).memref.contents@.subrange(0, self.capacity as int)
    }

    open spec fn spec_readable(&self) -> bool {
        self.capacity <= (*self.raw_param).memref.contents@.len()
    }

    fn get_buffer(&self) -> (buffer: &[u8]) {
        let (front, _) = self.raw_param.memref.contents.as_slice().split_at(self.capacity);
        front
    }
}


impl<'a> ParameterMemrefWrite for ParameterMemrefInout<'a> {
    open spec fn spec_capacity(&self) -> usize {
        self.capacity
    }

    open spec fn spec_region(&self) -> Seq<u8> {
        (*self.raw_param).memref.contents@
    }

    open spec fn spec_size(&self) -> usize {
        (*self.raw_param).memref.size
    }

    fn get_buffer_mut(&mut self) -> (buffer: &mut [u8])
        ensures
            final(self).raw_param.value == old(self).raw_param.value,
            final(self).raw_param.memref.buffer == old(self).raw_param.memref.buffer,
            *final(final(self).raw_param) == *final(old(self).raw_param),
    {
        let capacity = self.capacity;
        let (front, _) = self.raw_param.memref.contents.as_mut_slice().split_at_mut(capacity);
        front
    }

    fn get_capacity(&self) -> (capacity: usize) {
        self.capacity
    }

    fn set_updated_size(&mut self, size: usize) -> (res: Result<()>)
        ensures
            final(self).raw_param.value == old(self).raw_param.value,
            final(self).raw_param.memref.buffer == old(self).raw_param.memref.buffer,
            *final(final(self).raw_param) == *final(old(self).raw_param),
    {
        if size > self.get_capacity() {
            return Err(ErrorKind::ShortBuffer.into());
        }
        self.set_updated_size_unchecked(size);
        Ok(())
    }

    fn set_output(&mut self, data: &[u8]) -> (res: Result<()>)
        ensures
            final(self).raw_param.value == old(self).raw_param.value,
            final(self).raw_param.memref.buffer == old(self).raw_param.memref.buffer,
            *final(final(self).raw_param) == *final(old(self).raw_param),
    {
        let res = self.write_at(0, data);
        assert(old(self).spec_region().subrange(0, 0) + data@ =~= data@);
        res
    }

    fn write_at(&mut self, offset: usize, data: &[u8]) -> (res: Result<()>)
        ensures
            final(self).raw_param.value == old(self).raw_param.value,
            final(self).raw_param.memref.buffer == old(self).raw_param.memref.buffer,
            *final(final(self).raw_param) == *final(old(self).raw_param),
    {
        let new_size = match offset.checked_add(data.len()) {
            Some(n) => n,
            None => return Err(ErrorKind::ShortBuffer.into()),
        };
        if new_size > self.get_capacity() {
            return Err(ErrorKind::ShortBuffer.into());
        }
        let mut i: usize = 0;
        while i < data.len()
            invariant
                new_size == offset + data@.len(),
                new_size <= self.capacity <= self.raw_param.memref.contents@.len(),
                i <= data@.len(),
                self.capacity == old(self).capacity,
                self.raw_param.value == old(self).raw_param.value,
                self.raw_param.memref.buffer == old(self).raw_param.memref.buffer,
                self.raw_param.memref.size == old(self).raw_param.memref.size,
                *final(self.raw_param) == *final(old(self).raw_param),
                self.raw_param.memref.contents@.len() == old(self).raw_param.memref.contents@.len(),
                forall|k: int|
                    0 <= k < self.raw_param.memref.contents@.len() ==> #[trigger] self.raw_param.memref.contents@[k]
                        == if offset <= k < offset + i {
                        data@[k - offset]
                    } else {
                        old(self).raw_param.memref.contents@[k]
                    },
            decreases data@.len() - i,
        {
            self.raw_param.memref.contents.set(offset + i, data[i]);
            i = i + 1;
        }
        assert(self.raw_param.memref.contents@ =~= old(self).spec_region().subrange(0, offset as int)
            + data@ + old(self).spec_region().subrange(
            offset + data@.len(),
            old(self).spec_region().len() as int,
        ));
        self.set_updated_size_unchecked(new_size);
        Ok(())
    }

    fn set_updated_size_unchecked(&mut self, size: usize)
        ensures
            final(self).raw_param.value == old(self).raw_param.value,
            final(self).raw_param.memref.buffer == old(self).raw_param.memref.buffer,
            *final(final(self).raw_param) == *final(old(self).raw_param),
    {
        self.raw_param.memref.size = size;
    }
}

impl<'a> ParameterMemrefWrite for ParameterMemrefOutput<'a> {
    open spec fn spec_capacity(&self) -> usize {
        self.capacity
    }

    open spec fn spec_region(&self) -> Seq<u8> {
        (*self.raw_param).memref.contents@
    }

    open spec fn spec_size(&self) -> usize {
        (*self.raw_param).memref.size
    }

    fn get_buffer_mut(&mut self) -> (buffer: &mut [u8])
        ensures
            final(self).raw_param.value == old(self).raw_param.value,
            final(self).raw_param.memref.buffer == old(self).raw_param.memref.buffer,
            *final(final(self).raw_param) == *final(old(self).raw_param),
    {
        let capacity = self.capacity;
        let (front, _) = self.raw_param.memref.contents.as_mut_slice().split_at_mut(capacity);
        front
    }

    fn get_capacity(&self) -> (capacity: usize) {
        self.capacity
    }

    fn set_updated_size(&mut self, size: usize) -> (res: Result<()>)
        ensures
            final(self).raw_param.value == old(self).raw_param.value,
            final(self).raw_param.memref.buffer == old(self).raw_param.memref.buffer,
            *final(final(self).raw_param) == *final(old(self).raw_param),
    {
        if size > self.get_capacity() {
            return Err(ErrorKind::ShortBuffer.into());
        }
        self.set_updated_size_unchecked(size);
        Ok(())
    }

    fn set_output(&mut self, data: &[u8]) -> (res: Result<()>)
        ensures
            final(self).raw_param.value == old(self).raw_param.value,
            final(self).raw_param.memref.buffer == old(self).raw_param.memref.buffer,
            *final(final(self).raw_param) == *final(old(self).raw_param),
    {
        let res = self.write_at(0, data);
        assert(old(self).spec_region().subrange(0, 0) + data@ =~= data@);
        res
    }

    fn write_at(&mut self, offset: usize, data: &[u8]) -> (res: Result<()>)
        ensures
            final(self).raw_param.value == old(self).raw_param.value,
            final(self).raw_param.memref.buffer == old(self).raw_param.memref.buffer,
            *final(final(self).raw_param) == *final(old(self).raw_param),
    {
        let new_size = match offset.checked_add(data.len()) {
            Some(n) => n,
            None => return Err(ErrorKind::ShortBuffer.into()),
        };
        if new_size > self.get_capacity() {
            return Err(ErrorKind::ShortBuffer.into());
        }
        let mut i: usize = 0;
        while i < data.len()
            invariant
                new_size == offset + data@.len(),
                new_size <= self.capacity <= self.raw_param.memref.contents@.len(),
                i <= data@.len(),
                self.capacity == old(self).capacity,
                self.raw_param.value == old(self).raw_param.value,
                self.raw_param.memref.buffer == old(self).raw_param.memref.buffer,
                self.raw_param.memref.size == old(self).raw_param.memref.size,
                *final(self.raw_param) == *final(old(self).raw_param),
                self.raw_param.memref.contents@.len() == old(self).raw_param.memref.contents@.len(),
                forall|k: int|
                    0 <= k < self.raw_param.memref.contents@.len() ==> #[trigger] self.raw_param.memref.contents@[k]
                        == if offset <= k < offset + i {
                        data@[k - offset]
                    } else {
                        old(self).raw_param.memref.contents@[k]
                    },
            decreases data@.len() - i,
        {
            self.raw_param.memref.contents.set(offset + i, data[i]);
            i = i + 1;
        }
        assert(self.raw_param.memref.contents@ =~= old(self).spec_region().subrange(0, offset as int)
            + data@ + old(self).spec_region().subrange(
            offset + data@.len(),
            old(self).spec_region().len() as int,
        ));
        self.set_updated_size_unchecked(new_size);
        Ok(())
    }

    fn set_updated_size_unchecked(&mut self, size: usize)
        ensures
            final(self).raw_param.value == old(self).raw_param.value,
            final(self).raw_param.memref.buffer == old(self).raw_param.memref.buffer,
            *final(final(self).raw_param) == *final(old(self).raw_param),
    {
        self.raw_param.memref.size = size;
    }
}

} // verus!
