//! The four parameters of a TEE invocation, their types, and typed access to
//! the values and shared memory buffers they carry.
use vstd::prelude::*;

use crate::digits::{append_decimal, spec_decimal};

use crate::access::{Accessible, NoAccess, Read, ReadWrite, Writable, Write};
use crate::error::{Error, ErrorKind, Result};
use crate::raw::{self, RawParams, TeeMemref, TeeParam, TeeValue};
use crate::volatile::VolatileBuf;
use core::marker::PhantomData;

verus! {

/// The type of one invocation parameter.
#[derive(Copy, Clone, Debug, PartialEq, Eq, Structural)]
pub enum ParamType {
    /// No parameter (the raw type `TEE_PARAM_TYPE_NONE`).
    NoneType,
    ValueInput,
    ValueOutput,
    ValueInout,
    MemrefInput,
    MemrefOutput,
    MemrefInout,
}

/// The parameter type that a raw type code stands for; unknown codes are `None`.
pub open spec fn spec_param_type_of(code: u32) -> ParamType {
    if code == raw::TEE_PARAM_TYPE_VALUE_INPUT {
        ParamType::ValueInput
    } else if code == raw::TEE_PARAM_TYPE_VALUE_OUTPUT {
        ParamType::ValueOutput
    } else if code == raw::TEE_PARAM_TYPE_VALUE_INOUT {
        ParamType::ValueInout
    } else if code == raw::TEE_PARAM_TYPE_MEMREF_INPUT {
        ParamType::MemrefInput
    } else if code == raw::TEE_PARAM_TYPE_MEMREF_OUTPUT {
        ParamType::MemrefOutput
    } else if code == raw::TEE_PARAM_TYPE_MEMREF_INOUT {
        ParamType::MemrefInout
    } else {
        ParamType::NoneType
    }
}

/// The raw type code of a parameter type.
pub open spec fn spec_param_type_code(param_type: ParamType) -> u32 {
    match param_type {
        ParamType::NoneType => raw::TEE_PARAM_TYPE_NONE,
        ParamType::ValueInput => raw::TEE_PARAM_TYPE_VALUE_INPUT,
        ParamType::ValueOutput => raw::TEE_PARAM_TYPE_VALUE_OUTPUT,
        ParamType::ValueInout => raw::TEE_PARAM_TYPE_VALUE_INOUT,
        ParamType::MemrefInput => raw::TEE_PARAM_TYPE_MEMREF_INPUT,
        ParamType::MemrefOutput => raw::TEE_PARAM_TYPE_MEMREF_OUTPUT,
        ParamType::MemrefInout => raw::TEE_PARAM_TYPE_MEMREF_INOUT,
    }
}

/// Whether a parameter type carries two values.
pub open spec fn spec_is_value(param_type: ParamType) -> bool {
    param_type == ParamType::ValueInput || param_type == ParamType::ValueOutput || param_type
        == ParamType::ValueInout
}

/// Whether a parameter type carries a memory reference.
pub open spec fn spec_is_memref(param_type: ParamType) -> bool {
    param_type == ParamType::MemrefInput || param_type == ParamType::MemrefOutput || param_type
        == ParamType::MemrefInout
}

/// The name of a parameter type.
pub open spec fn spec_param_type_name(param_type: ParamType) -> Seq<char> {
    match param_type {
        ParamType::NoneType => "None"@,
        ParamType::ValueInput => "ValueInput"@,
        ParamType::ValueOutput => "ValueOutput"@,
        ParamType::ValueInout => "ValueInout"@,
        ParamType::MemrefInput => "MemrefInput"@,
        ParamType::MemrefOutput => "MemrefOutput"@,
        ParamType::MemrefInout => "MemrefInout"@,
    }
}

impl ParamType {
    /// The raw type code of this parameter type.
    pub fn code(&self) -> (code: u32)
        ensures
            code == spec_param_type_code(*self),
    {
        match *self {
            ParamType::NoneType => raw::TEE_PARAM_TYPE_NONE,
            ParamType::ValueInput => raw::TEE_PARAM_TYPE_VALUE_INPUT,
            ParamType::ValueOutput => raw::TEE_PARAM_TYPE_VALUE_OUTPUT,
            ParamType::ValueInout => raw::TEE_PARAM_TYPE_VALUE_INOUT,
            ParamType::MemrefInput => raw::TEE_PARAM_TYPE_MEMREF_INPUT,
            ParamType::MemrefOutput => raw::TEE_PARAM_TYPE_MEMREF_OUTPUT,
            ParamType::MemrefInout => raw::TEE_PARAM_TYPE_MEMREF_INOUT,
        }
    }

    /// The name of this parameter type.
    pub fn as_str(&self) -> (name: &'static str)
        ensures
            name@ == spec_param_type_name(*self),
    {
        match *self {
            ParamType::NoneType => "None",
            ParamType::ValueInput => "ValueInput",
            ParamType::ValueOutput => "ValueOutput",
            ParamType::ValueInout => "ValueInout",
            ParamType::MemrefInput => "MemrefInput",
            ParamType::MemrefOutput => "MemrefOutput",
            ParamType::MemrefInout => "MemrefInout",
        }
    }
}

impl From<u32> for ParamType {
    fn from(value: u32) -> (param_type: ParamType) {
        match value {
            0 => ParamType::NoneType,
            1 => ParamType::ValueInput,
            2 => ParamType::ValueOutput,
            3 => ParamType::ValueInout,
            5 => ParamType::MemrefInput,
            6 => ParamType::MemrefOutput,
            7 => ParamType::MemrefInout,
            _ => ParamType::NoneType,
        }
    }
}

impl vstd::std_specs::convert::FromSpecImpl<u32> for ParamType {
    open spec fn obeys_from_spec() -> bool {
        true
    }

    open spec fn from_spec(value: u32) -> ParamType {
        spec_param_type_of(value)
    }
}

/// Every parameter type survives the trip through its raw code.
pub proof fn lemma_param_type_round_trip(param_type: ParamType)
    ensures
        spec_param_type_of(spec_param_type_code(param_type)) == param_type,
{
}

/// The four parameter types of an invocation packed in one word, four bits
/// each, the first parameter in the lowest bits.
pub struct ParamTypes(pub u32);

impl From<u32> for ParamTypes {
    fn from(value: u32) -> (types: ParamTypes)
        ensures
            types.0 == value,
    {
        ParamTypes(value)
    }
}

impl vstd::std_specs::convert::FromSpecImpl<u32> for ParamTypes {
    open spec fn obeys_from_spec() -> bool {
        true
    }

    open spec fn from_spec(value: u32) -> ParamTypes {
        ParamTypes(value)
    }
}

impl ParamTypes {
    /// The type of parameter `i` (0 to 3): the `i`-th group of four bits.
    pub open spec fn spec_flag(&self, i: int) -> ParamType {
        spec_param_type_of((((self.0 as int) / pow16(i)) % 16) as u32)
    }

    /// The four parameter types, first parameter first.
    pub fn into_flags(&self) -> (flags: (ParamType, ParamType, ParamType, ParamType))
        ensures
            flags.0 == self.spec_flag(0),
            flags.1 == self.spec_flag(1),
            flags.2 == self.spec_flag(2),
            flags.3 == self.spec_flag(3),
    {
        let v = self.0;
        assert((0x000fu32 & v) == v % 16) by (bit_vector);
        assert(((0x00f0u32 & v) >> 4u32) == (v / 16) % 16) by (bit_vector);
        assert(((0x0f00u32 & v) >> 8u32) == (v / 256) % 16) by (bit_vector);
        assert(((0xf000u32 & v) >> 12u32) == (v / 4096) % 16) by (bit_vector);
        assert(pow16(0) == 1 && pow16(1) == 16 && pow16(2) == 256 && pow16(3) == 4096) by {
            reveal_with_fuel(pow16, 4);
        }
        (
            (0x000fu32 & v).into(),
            ((0x00f0u32 & v) >> 4).into(),
            ((0x0f00u32 & v) >> 8).into(),
            ((0xf000u32 & v) >> 12).into(),
        )
    }
}

/// Sixteen to the power `i`.
pub open spec fn pow16(i: int) -> int
    decreases i,
{
    if i <= 0 {
        1
    } else {
        16 * pow16(i - 1)
    }
}

/// One parameter of an invocation: its raw slot and its type.
pub struct Parameter<'a> {
    pub raw: &'a mut TeeParam,
    pub param_type: ParamType,
}

impl<'a> Parameter<'a> {
    /// The raw slot as it currently stands.
    pub open spec fn spec_raw(&self) -> TeeParam {
        *self.raw
    }

    /// A parameter over the raw slot `ptr` with the given type.
    pub fn from_raw(ptr: &'a mut TeeParam, param_type: ParamType) -> (param: Self)
        ensures
            *param.raw == *old(ptr),
            *final(ptr) == *final(param.raw),
            param.param_type == param_type,
    {
        Parameter { raw: ptr, param_type }
    }

    /// The value half of this parameter, if its type is a value type; else a
    /// `BadParameters` error. The raw slot must be initialized.
    pub fn as_value(&mut self) -> (res: Result<ParamValue<'_>>)
        ensures
            final(self).param_type == old(self).param_type,
            *final(final(self).raw) == *final(old(self).raw),
            res is Ok <==> spec_is_value(old(self).param_type),
            match res {
                Ok(v) => {
                    &&& *v.raw == old(self).raw.value
                    &&& v.param_type == old(self).param_type
                    &&& final(self).raw.value == *final(v.raw)
                    &&& final(self).raw.memref == old(self).raw.memref
                },
                Err(e) => {
                    &&& e.spec_kind() == ErrorKind::BadParameters
                    &&& *final(self).raw == *old(self).raw
                },
            },
    {
        match self.param_type {
            ParamType::ValueInput | ParamType::ValueInout | ParamType::ValueOutput => {
                Ok(ParamValue { raw: &mut self.raw.value, param_type: self.param_type })
            },
            _ => Err(Error::new(ErrorKind::BadParameters)),
        }
    }

    /// The memory reference of this parameter, with no access yet, if its type
    /// is a memory-reference type; else a `BadParameters` error. Its capacity
    /// is the size the client reported.
    pub fn as_memref(&mut self) -> (res: Result<ParamMemref<'_, NoAccess>>)
        requires
            old(self).raw.memref.spec_well_formed(),
        ensures
            final(self).param_type == old(self).param_type,
            *final(final(self).raw) == *final(old(self).raw),
            res is Ok <==> spec_is_memref(old(self).param_type),
            match res {
                Ok(m) => {
                    &&& *m.raw == old(self).raw.memref
                    &&& m.param_type == old(self).param_type
                    &&& m.capacity == old(self).raw.memref.size
                    &&& m.spec_state() == (MemrefState {
                        capacity: old(self).raw.memref.size,
                        size: old(self).raw.memref.size,
                    })
                    &&& m.spec_well_formed()
                    &&& final(self).raw.memref == *final(m.raw)
                    &&& final(self).raw.value == old(self).raw.value
                },
                Err(e) => {
                    &&& e.spec_kind() == ErrorKind::BadParameters
                    &&& *final(self).raw == *old(self).raw
                },
            },
    {
        match self.param_type {
            ParamType::MemrefInout | ParamType::MemrefInput | ParamType::MemrefOutput => {
                let capacity = self.raw.memref.size;
                Ok(
                    ParamMemref {
                        raw: &mut self.raw.memref,
                        param_type: self.param_type,
                        capacity,
                        access: PhantomData,
                    },
                )
            },
            _ => Err(Error::new(ErrorKind::BadParameters)),
        }
    }

    /// The raw slot of this parameter.
    pub fn raw(&self) -> (raw: &TeeParam)
        ensures
            *raw == self.spec_raw(),
    {
        &*self.raw
    }
}

/// The four parameters of an invocation.
pub struct Parameters<'a>(pub Parameter<'a>, pub Parameter<'a>, pub Parameter<'a>, pub Parameter<'a>);

impl<'a> Parameters<'a> {
    /// The parameters over the four raw slots, typed by the packed type word.
    pub fn from_raw(tee_params: &'a mut RawParams, param_types: u32) -> (params: Self)
        ensures
            *params.0.raw == old(tee_params).0,
            *params.1.raw == old(tee_params).1,
            *params.2.raw == old(tee_params).2,
            *params.3.raw == old(tee_params).3,
            final(tee_params).0 == *final(params.0.raw),
            final(tee_params).1 == *final(params.1.raw),
            final(tee_params).2 == *final(params.2.raw),
            final(tee_params).3 == *final(params.3.raw),
            params.0.param_type == ParamTypes(param_types).spec_flag(0),
            params.1.param_type == ParamTypes(param_types).spec_flag(1),
            params.2.param_type == ParamTypes(param_types).spec_flag(2),
            params.3.param_type == ParamTypes(param_types).spec_flag(3),
    {
        let (f0, f1, f2, f3) = ParamTypes::from(param_types).into_flags();
        let p0 = Parameter::from_raw(&mut tee_params.0, f0);
        let p1 = Parameter::from_raw(&mut tee_params.1, f1);
        let p2 = Parameter::from_raw(&mut tee_params.2, f2);
        let p3 = Parameter::from_raw(&mut tee_params.3, f3);
        Parameters(p0, p1, p2, p3)
    }
}

/// The two values of a value parameter.
pub struct ParamValue<'parameter> {
    pub raw: &'parameter mut TeeValue,
    pub param_type: ParamType,
}

impl<'parameter> ParamValue<'parameter> {
    /// The two values as they currently stand.
    pub open spec fn spec_raw(&self) -> TeeValue {
        *self.raw
    }

    /// The first value.
    pub fn a(&self) -> (a: u32)
        ensures
            a == self.spec_raw().a,
    {
        self.raw.a
    }

    /// The second value.
    pub fn b(&self) -> (b: u32)
        ensures
            b == self.spec_raw().b,
    {
        self.raw.b
    }

    /// Sets the first value.
    pub fn set_a(&mut self, a: u32)
        ensures
            final(self).raw.a == a,
            final(self).raw.b == old(self).raw.b,
            final(self).param_type == old(self).param_type,
            *final(final(self).raw) == *final(old(self).raw),
    {
        self.raw.a = a;
    }

    /// Sets the second value.
    pub fn set_b(&mut self, b: u32)
        ensures
            final(self).raw.b == b,
            final(self).raw.a == old(self).raw.a,
            final(self).param_type == old(self).param_type,
            *final(final(self).raw) == *final(old(self).raw),
    {
        self.raw.b = b;
    }

    /// The type of this parameter.
    pub fn param_type(&self) -> (param_type: ParamType)
        ensures
            param_type == self.param_type,
    {
        self.param_type
    }
}

/// An operation on a memory reference, as it bears on its capacity and its
/// reported size: a cast of its access (`input`, `output`, `inout`,
/// `noaccess`), `buffer`, `set_updated_size` or `ensure_capacity`.
pub enum MemrefOp {
    Cast,
    Buffer,
    SetUpdatedSize(usize),
    EnsureCapacity(usize),
}

/// The capacity of a memory reference and the size its raw reference
/// reports to the client.
pub struct MemrefState {
    pub capacity: usize,
    pub size: usize,
}

/// The state after one operation: a size update within the capacity sets the
/// size; a capacity check that fails asks for the required length; nothing
/// else changes either.
pub open spec fn spec_memref_step(state: MemrefState, op: MemrefOp) -> MemrefState {
    match op {
        MemrefOp::Cast => state,
        MemrefOp::Buffer => state,
        MemrefOp::SetUpdatedSize(size) => if size <= state.capacity {
            MemrefState { capacity: state.capacity, size }
        } else {
            state
        },
        MemrefOp::EnsureCapacity(required_len) => if required_len <= state.capacity {
            state
        } else {
            MemrefState { capacity: state.capacity, size: required_len }
        },
    }
}

/// The state after the operations `ops`, in order, from `state`.
pub open spec fn spec_memref_run(state: MemrefState, ops: Seq<MemrefOp>) -> MemrefState
    decreases ops.len(),
{
    if ops.len() == 0 {
        state
    } else {
        spec_memref_step(spec_memref_run(state, ops.drop_last()), ops.last())
    }
}

/// A parameter that is a reference to client-controlled shared memory, with
/// the access `A` granted to it. `capacity` is the size of the region as the
/// client first reported it.
pub struct ParamMemref<'parameter, A> {
    pub raw: &'parameter mut TeeMemref,
    pub param_type: ParamType,
    pub capacity: usize,
    pub access: PhantomData<A>,
}

impl<'parameter, A> ParamMemref<'parameter, A> {
    /// The raw memory reference as it currently stands.
    pub open spec fn spec_raw(&self) -> TeeMemref {
        *self.raw
    }

    /// Its capacity and the size its raw reference reports.
    pub open spec fn spec_state(&self) -> MemrefState {
        MemrefState { capacity: self.capacity, size: self.spec_raw().size }
    }

    /// A non-null region holds at least `capacity` bytes.
    pub open spec fn spec_well_formed(&self) -> bool {
        self.spec_raw().buffer != 0 ==> self.capacity <= self.spec_raw().contents@.len()
    }

    /// Casts the access to `NewAccess` if the parameter has the expected type;
    /// otherwise hands the memory reference back inside the error.
    fn access<NewAccess>(self, expected_param_type: ParamType) -> (res: core::result::Result<
        ParamMemref<'parameter, NewAccess>,
        InvalidAccessErr<Self, NewAccess>,
    >)
        ensures
            res is Ok <==> self.param_type == expected_param_type,
            match res {
                Ok(m) => {
                    &&& *m.raw == self.spec_raw()
                    &&& *final(m.raw) == *final(self.raw)
                    &&& m.param_type == self.param_type
                    &&& m.capacity == self.capacity
                    &&& m.spec_state() == spec_memref_step(self.spec_state(), MemrefOp::Cast)
                },
                Err(e) => {
                    &&& e.spec_param_type() == self.param_type
                    &&& e.spec_value() == self
                },
            },
    {
        if self.param_type != expected_param_type {
            return Err(
                InvalidAccessErr { param_type: self.param_type, value: self, access: PhantomData },
            );
        }
        Ok(
            ParamMemref {
                raw: self.raw,
                param_type: self.param_type,
                capacity: self.capacity,
                access: PhantomData,
            },
        )
    }

    /// Checks that this param is a `MemrefInput` and casts access to `Read`.
    pub fn input(self) -> (res: core::result::Result<
        ParamMemref<'parameter, Read>,
        InvalidAccessErr<Self, Read>,
    >)
        ensures
            res is Ok <==> self.param_type == ParamType::MemrefInput,
            match res {
                Ok(m) => {
                    &&& *m.raw == self.spec_raw()
                    &&& *final(m.raw) == *final(self.raw)
                    &&& m.param_type == self.param_type
                    &&& m.capacity == self.capacity
                    &&& m.spec_state() == spec_memref_step(self.spec_state(), MemrefOp::Cast)
                },
                Err(e) => {
                    &&& e.spec_param_type() == self.param_type
                    &&& e.spec_value() == self
                },
            },
    {
        self.access(ParamType::MemrefInput)
    }

    /// Checks that this param is a `MemrefOutput` and casts access to `Write`.
    pub fn output(self) -> (res: core::result::Result<
        ParamMemref<'parameter, Write>,
        InvalidAccessErr<Self, Write>,
    >)
        ensures
            res is Ok <==> self.param_type == ParamType::MemrefOutput,
            match res {
                Ok(m) => {
                    &&& *m.raw == self.spec_raw()
                    &&& *final(m.raw) == *final(self.raw)
                    &&& m.param_type == self.param_type
                    &&& m.capacity == self.capacity
                    &&& m.spec_state() == spec_memref_step(self.spec_state(), MemrefOp::Cast)
                },
                Err(e) => {
                    &&& e.spec_param_type() == self.param_type
                    &&& e.spec_value() == self
                },
            },
    {
        self.access(ParamType::MemrefOutput)
    }

    /// Checks that this param is a `MemrefInout` and casts access to `ReadWrite`.
    pub fn inout(self) -> (res: core::result::Result<
        ParamMemref<'parameter, ReadWrite>,
        InvalidAccessErr<Self, ReadWrite>,
    >)
        ensures
            res is Ok <==> self.param_type == ParamType::MemrefInout,
            match res {
                Ok(m) => {
                    &&& *m.raw == self.spec_raw()
                    &&& *final(m.raw) == *final(self.raw)
                    &&& m.param_type == self.param_type
                    &&& m.capacity == self.capacity
                    &&& m.spec_state() == spec_memref_step(self.spec_state(), MemrefOp::Cast)
                },
                Err(e) => {
                    &&& e.spec_param_type() == self.param_type
                    &&& e.spec_value() == self
                },
            },
    {
        self.access(ParamType::MemrefInout)
    }

    /// Casts the access to `NoAccess`.
    pub fn noaccess(self) -> (m: ParamMemref<'parameter, NoAccess>)
        ensures
            *m.raw == self.spec_raw(),
            *final(m.raw) == *final(self.raw),
            m.param_type == self.param_type,
            m.capacity == self.capacity,
            m.spec_state() == spec_memref_step(self.spec_state(), MemrefOp::Cast),
    {
        ParamMemref {
            raw: self.raw,
            param_type: self.param_type,
            capacity: self.capacity,
            access: PhantomData,
        }
    }

    /// The raw memory reference.
    pub fn raw(&self) -> (raw: &TeeMemref)
        ensures
            *raw == self.spec_raw(),
    {
        &*self.raw
    }

    /// The size of the shared region as first reported.
    pub fn capacity(&self) -> (capacity: usize)
        ensures
            capacity == self.capacity,
    {
        self.capacity
    }

    /// The type of this parameter.
    pub fn param_type(&self) -> (param_type: ParamType)
        ensures
            param_type == self.param_type,
    {
        self.param_type
    }
}

impl<'parameter, A: Accessible> ParamMemref<'parameter, A> {
    /// The shared region as a volatile buffer of `capacity` bytes, or
    /// `NullBufferErr` when the client passed a null buffer.
    pub fn buffer(&mut self) -> (res: core::result::Result<VolatileBuf<'_, A>, NullBufferErr>)
        requires
            old(self).spec_well_formed(),
        ensures
            res is Ok <==> old(self).spec_raw().buffer != 0,
            final(self).param_type == old(self).param_type,
            final(self).capacity == old(self).capacity,
            final(self).spec_state() == spec_memref_step(old(self).spec_state(), MemrefOp::Buffer),
            *final(final(self).raw) == *final(old(self).raw),
            match res {
                Ok(buf) => {
                    &&& buf.addr == old(self).spec_raw().buffer
                    &&& buf.capacity == old(self).capacity
                    &&& *buf.cells == old(self).spec_raw().contents
                    &&& buf.spec_well_formed()
                    &&& final(self).spec_raw().contents == *final(buf.cells)
                    &&& final(self).spec_raw().buffer == old(self).spec_raw().buffer
                    &&& final(self).spec_raw().size == old(self).spec_raw().size
                },
                Err(_) => final(self).spec_raw() == old(self).spec_raw(),
            },
    {
        if self.raw.buffer == 0 {
            return Err(NullBufferErr);
        }
        let addr = self.raw.buffer;
        let capacity = self.capacity;
        Ok(VolatileBuf::new(addr, &mut self.raw.contents, capacity))
    }
}

impl<'parameter, A: Writable> ParamMemref<'parameter, A> {
    /// Reports `size` bytes of output to the client; fails, changing nothing,
    /// when `size` is bigger than the capacity.
    pub fn set_updated_size(&mut self, size: usize) -> (res: core::result::Result<
        (),
        BiggerThanCapacityErr,
    >)
        ensures
            res is Ok <==> size <= old(self).capacity,
            final(self).param_type == old(self).param_type,
            final(self).capacity == old(self).capacity,
            final(self).spec_state() == spec_memref_step(
                old(self).spec_state(),
                MemrefOp::SetUpdatedSize(size),
            ),
            *final(final(self).raw) == *final(old(self).raw),
            final(self).spec_raw().buffer == old(self).spec_raw().buffer,
            final(self).spec_raw().contents == old(self).spec_raw().contents,
            res is Ok ==> final(self).spec_raw().size == size,
            res is Err ==> final(self).spec_raw().size == old(self).spec_raw().size,
            match res {
                Ok(_) => true,
                Err(e) => e.spec_requested_size() == size && e.spec_capacity()
                    == old(self).capacity,
            },
    {
        if size > self.capacity {
            return Err(BiggerThanCapacityErr { requested_size: size, capacity: self.capacity });
        }
        self.raw.size = size;
        Ok(())
    }

    /// Checks that the capacity is enough for `required_len` bytes. When it is
    /// not, the raw size is set to `required_len` (asking the client to call
    /// again with a bigger buffer) and `ShortBufferErr` is returned; the
    /// capacity itself never changes.
    pub fn ensure_capacity(&mut self, required_len: usize) -> (res: core::result::Result<
        (),
        ShortBufferErr,
    >)
        ensures
            res is Ok <==> required_len <= old(self).capacity,
            final(self).param_type == old(self).param_type,
            final(self).capacity == old(self).capacity,
            final(self).spec_state() == spec_memref_step(
                old(self).spec_state(),
                MemrefOp::EnsureCapacity(required_len),
            ),
            *final(final(self).raw) == *final(old(self).raw),
            final(self).spec_raw().buffer == old(self).spec_raw().buffer,
            final(self).spec_raw().contents == old(self).spec_raw().contents,
            res is Ok ==> final(self).spec_raw().size == old(self).spec_raw().size,
            res is Err ==> final(self).spec_raw().size == required_len,
            match res {
                Ok(_) => true,
                Err(e) => e.spec_required_len() == required_len && e.spec_capacity()
                    == old(self).capacity,
            },
    {
        if required_len > self.capacity {
            self.raw.size = required_len;
            return Err(ShortBufferErr { required_len, capacity: self.capacity });
        }
        Ok(())
    }
}

/// A requested output size above the capacity.
#[derive(Debug)]
pub struct BiggerThanCapacityErr {
    requested_size: usize,
    capacity: usize,
}

impl BiggerThanCapacityErr {
    /// The size that was requested.
    pub closed spec fn spec_requested_size(&self) -> usize {
        self.requested_size
    }

    /// The capacity it exceeded.
    pub closed spec fn spec_capacity(&self) -> usize {
        self.capacity
    }

    /// The description of this error, with the requested size and the
    /// capacity in decimal.
    pub fn message(&self) -> (message: String)
        ensures
            message@ == "requested size "@ + spec_decimal(self.spec_requested_size() as nat)
                + " but this is bigger than the capacity "@ + spec_decimal(
                self.spec_capacity() as nat,
            ),
    {
        let mut message = String::from_str("requested size ");
        append_decimal(&mut message, self.requested_size as u64);
        message.append(" but this is bigger than the capacity ");
        append_decimal(&mut message, self.capacity as u64);
        message
    }
}

impl vstd::std_specs::convert::FromSpecImpl<BiggerThanCapacityErr> for Error {
    open spec fn obeys_from_spec() -> bool {
        true
    }

    open spec fn from_spec(value: BiggerThanCapacityErr) -> Error {
        Error::spec_new(ErrorKind::Overflow)
    }
}

impl From<BiggerThanCapacityErr> for Error {
    fn from(value: BiggerThanCapacityErr) -> (error: Error)
        ensures
            error.spec_kind() == ErrorKind::Overflow,
    {
        Error::new(ErrorKind::Overflow)
    }
}

/// A buffer too short for the output it must take.
#[derive(Debug)]
pub struct ShortBufferErr {
    required_len: usize,
    capacity: usize,
}

impl ShortBufferErr {
    /// The length that was needed.
    pub closed spec fn spec_required_len(&self) -> usize {
        self.required_len
    }

    /// The capacity that fell short.
    pub closed spec fn spec_capacity(&self) -> usize {
        self.capacity
    }

    /// The description of this error, with the required length and the
    /// capacity in decimal.
    pub fn message(&self) -> (message: String)
        ensures
            message@ == "required a buffer of len "@ + spec_decimal(
                self.spec_required_len() as nat,
            ) + " but only had capacity of "@ + spec_decimal(self.spec_capacity() as nat),
    {
        let mut message = String::from_str("required a buffer of len ");
        append_decimal(&mut message, self.required_len as u64);
        message.append(" but only had capacity of ");
        append_decimal(&mut message, self.capacity as u64);
        message
    }
}

impl vstd::std_specs::convert::FromSpecImpl<ShortBufferErr> for Error {
    open spec fn obeys_from_spec() -> bool {
        true
    }

    open spec fn from_spec(value: ShortBufferErr) -> Error {
        Error::spec_new(ErrorKind::ShortBuffer)
    }
}

impl From<ShortBufferErr> for Error {
    fn from(value: ShortBufferErr) -> (error: Error)
        ensures
            error.spec_kind() == ErrorKind::ShortBuffer,
    {
        Error::new(ErrorKind::ShortBuffer)
    }
}

/// Error while attempting to cast access; it gives the value back.
#[derive(Debug)]
pub struct InvalidAccessErr<T, NewAccess> {
    param_type: ParamType,
    value: T,
    access: PhantomData<NewAccess>,
}

impl<T, NewAccess> InvalidAccessErr<T, NewAccess> {
    /// The type the parameter actually had.
    pub closed spec fn spec_param_type(&self) -> ParamType {
        self.param_type
    }

    /// The value whose access could not be cast.
    pub closed spec fn spec_value(&self) -> T {
        self.value
    }

    /// The value whose access could not be cast.
    pub fn into_inner(self) -> (value: T)
        ensures
            value == self.spec_value(),
    {
        self.value
    }
}

impl<T, A> vstd::std_specs::convert::FromSpecImpl<InvalidAccessErr<T, A>> for Error {
    open spec fn obeys_from_spec() -> bool {
        true
    }

    open spec fn from_spec(value: InvalidAccessErr<T, A>) -> Error {
        Error::spec_new(ErrorKind::BadParameters)
    }
}

impl<T, A> From<InvalidAccessErr<T, A>> for Error {
    fn from(value: InvalidAccessErr<T, A>) -> (error: Error)
        ensures
            error.spec_kind() == ErrorKind::BadParameters,
    {
        Error::new(ErrorKind::BadParameters)
    }
}

/// A null shared buffer.
#[derive(Debug)]
pub struct NullBufferErr;

impl NullBufferErr {
    /// The description of this error.
    pub fn message(&self) -> (message: &'static str)
        ensures
            message@ == "the buffer is null"@,
    {
        "the buffer is null"
    }
}

impl vstd::std_specs::convert::FromSpecImpl<NullBufferErr> for Error {
    open spec fn obeys_from_spec() -> bool {
        true
    }

    open spec fn from_spec(value: NullBufferErr) -> Error {
        Error::spec_new(ErrorKind::ShortBuffer)
    }
}

impl From<NullBufferErr> for Error {
    fn from(value: NullBufferErr) -> (error: Error)
        ensures
            error.spec_kind() == ErrorKind::ShortBuffer,
    {
        Error::new(ErrorKind::ShortBuffer)
    }
}

/// A memory reference keeps the capacity it was made with through any
/// sequence of operations, successful or not: after `as_memref`, whose
/// capacity is the size the client reported, every run of casts, `buffer`,
/// `set_updated_size` and `ensure_capacity` leaves that capacity as it was.
pub proof fn lemma_memref_capacity_kept(state: MemrefState, ops: Seq<MemrefOp>)
    ensures
        spec_memref_run(state, ops).capacity == state.capacity,
    decreases ops.len(),
{
    if ops.len() > 0 {
        lemma_memref_capacity_kept(state, ops.drop_last());
    }
}

} // verus!
