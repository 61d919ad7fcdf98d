use optee_core::error::ErrorKind;
use optee_core::parameter::{ParamType, ParamTypes, Parameters};
use optee_core::raw::{
    RawParams, TeeMemref, TeeParam, TeeValue, TEE_PARAM_TYPE_MEMREF_INOUT,
    TEE_PARAM_TYPE_MEMREF_INPUT, TEE_PARAM_TYPE_MEMREF_OUTPUT, TEE_PARAM_TYPE_NONE,
    TEE_PARAM_TYPE_VALUE_INOUT, TEE_PARAM_TYPE_VALUE_INPUT, TEE_PARAM_TYPE_VALUE_OUTPUT,
};
use optee_core::typed_param::{
    check_type_is, ParameterMemrefInout, ParameterMemrefInput, ParameterMemrefOutput,
    ParameterMemrefRead, ParameterMemrefWrite, ParameterValueInout, ParameterValueInput,
    ParameterValueOutput, ParameterValueRead, ParameterValueWrite,
};

fn value_slot(a: u32, b: u32) -> TeeParam {
    TeeParam {
        value: TeeValue { a, b },
        memref: TeeMemref { buffer: 0, size: 0, contents: Vec::new() },
    }
}

fn memref_slot(addr: usize, contents: Vec<u8>, size: usize) -> TeeParam {
    TeeParam {
        value: TeeValue { a: 0, b: 0 },
        memref: TeeMemref { buffer: addr, size, contents },
    }
}

fn types(t0: u32, t1: u32, t2: u32, t3: u32) -> u32 {
    t0 | (t1 << 4) | (t2 << 8) | (t3 << 12)
}

#[test]
fn param_type_codes_round_trip() {
    for code in 0u32..8 {
        let t = ParamType::from(code);
        if code == 4 || code == 0 {
            assert_eq!(t, ParamType::NoneType);
        } else {
            assert_eq!(t.code(), code);
        }
    }
    assert_eq!(ParamType::from(TEE_PARAM_TYPE_MEMREF_INOUT), ParamType::MemrefInout);
    assert_eq!(ParamType::NoneType.code(), TEE_PARAM_TYPE_NONE);
    assert_eq!(ParamType::ValueInout.as_str(), "ValueInout");
    assert_eq!(ParamType::NoneType.as_str(), "None");
}

#[test]
fn param_types_unpack_four_nibbles() {
    let packed = types(
        TEE_PARAM_TYPE_VALUE_INPUT,
        TEE_PARAM_TYPE_MEMREF_OUTPUT,
        TEE_PARAM_TYPE_NONE,
        TEE_PARAM_TYPE_VALUE_INOUT,
    );
    assert_eq!(packed, 0x3061);
    let (a, b, c, d) = ParamTypes::from(packed).into_flags();
    assert_eq!(a, ParamType::ValueInput);
    assert_eq!(b, ParamType::MemrefOutput);
    assert_eq!(c, ParamType::NoneType);
    assert_eq!(d, ParamType::ValueInout);
}

#[test]
fn value_parameter_reads_and_writes_its_slot() {
    let mut raw = RawParams(
        value_slot(7, 8),
        memref_slot(0x1000, vec![1, 2, 3, 4], 4),
        value_slot(0, 0),
        value_slot(0, 0),
    );
    let packed = types(
        TEE_PARAM_TYPE_VALUE_INOUT,
        TEE_PARAM_TYPE_MEMREF_INPUT,
        TEE_PARAM_TYPE_VALUE_OUTPUT,
        TEE_PARAM_TYPE_NONE,
    );
    {
        let mut params = Parameters::from_raw(&mut raw, packed);
        {
            let mut v = params.0.as_value().unwrap();
            assert_eq!(v.a(), 7);
            assert_eq!(v.b(), 8);
            assert_eq!(v.param_type(), ParamType::ValueInout);
            v.set_a(70);
            v.set_b(80);
        }
        // A memory reference is not a value, and a value is not a memory reference.
        assert_eq!(params.1.as_value().err().unwrap().kind(), ErrorKind::BadParameters);
        assert_eq!(params.0.as_memref().err().unwrap().kind(), ErrorKind::BadParameters);
        assert_eq!(params.3.as_value().err().unwrap().kind(), ErrorKind::BadParameters);
        {
            let mut out = params.2.as_value().unwrap();
            out.set_a(5);
        }
    }
    assert_eq!((raw.0.value.a, raw.0.value.b), (70, 80));
    assert_eq!(raw.2.value.a, 5);
}

#[test]
fn memref_access_is_checked_against_its_type() {
    let mut raw = RawParams(
        memref_slot(0x2000, vec![9, 8, 7, 6], 4),
        memref_slot(0x3000, vec![0; 8], 6),
        memref_slot(0, Vec::new(), 0),
        value_slot(0, 0),
    );
    let packed = types(
        TEE_PARAM_TYPE_MEMREF_INPUT,
        TEE_PARAM_TYPE_MEMREF_OUTPUT,
        TEE_PARAM_TYPE_MEMREF_INOUT,
        TEE_PARAM_TYPE_NONE,
    );
    {
        let mut params = Parameters::from_raw(&mut raw, packed);
        {
            let m = params.0.as_memref().unwrap();
            assert_eq!(m.capacity(), 4);
            // An input is not an output: the memory reference comes back.
            let err = m.output().err().unwrap();
            let m = err.into_inner();
            assert_eq!(m.param_type(), ParamType::MemrefInput);
            let mut input = m.input().ok().unwrap();
            let buf = input.buffer().unwrap();
            assert_eq!(buf.raw(), 0x2000);
            assert_eq!(buf.read(1).unwrap(), 8);
            assert!(buf.read(4).is_err());
            let mut out = [0u8; 6];
            buf.copy_to(&mut out).unwrap();
            assert_eq!(out, [9, 8, 7, 6, 0, 0]);
            let mut short = [0u8; 3];
            assert!(buf.copy_to(&mut short).is_err());
            assert_eq!(short, [0, 0, 0]);
        }
        {
            let m = params.1.as_memref().unwrap();
            let mut output = m.output().ok().unwrap();
            {
                let mut buf = output.buffer().unwrap();
                buf.copy_from(&[1, 2, 3]).unwrap();
                assert!(buf.copy_from(&[0; 7]).is_err());
                buf.write(5, 42).unwrap();
                assert!(buf.write(6, 1).is_err());
            }
            assert!(output.set_updated_size(7).is_err());
            output.set_updated_size(3).unwrap();
            let short = output.ensure_capacity(10).unwrap_err();
            assert_eq!(
                short.message(),
                "required a buffer of len 10 but only had capacity of 6"
            );
        }
        {
            let m = params.2.as_memref().unwrap();
            let mut inout = m.inout().ok().unwrap();
            assert!(inout.buffer().is_err());
        }
    }
    assert_eq!(raw.1.memref.contents, vec![1, 2, 3, 0, 0, 42, 0, 0]);
    // The failed capacity check asks the client for ten bytes.
    assert_eq!(raw.1.memref.size, 10);
}

#[test]
fn typed_value_parameters() {
    assert!(check_type_is(TEE_PARAM_TYPE_VALUE_INPUT, ParamType::ValueInput).is_ok());
    assert_eq!(
        check_type_is(TEE_PARAM_TYPE_VALUE_OUTPUT, ParamType::ValueInput)
            .unwrap_err()
            .kind(),
        ErrorKind::BadParameters
    );
    let mut slot = value_slot(3, 4);
    let input = ParameterValueInput::from_raw(TEE_PARAM_TYPE_VALUE_INPUT, &mut slot).unwrap();
    assert_eq!((input.get_a(), input.get_b()), (3, 4));
    {
        let mut inout =
            ParameterValueInout::from_raw(TEE_PARAM_TYPE_VALUE_INOUT, &mut slot).unwrap();
        assert_eq!(inout.get_a(), 3);
        inout.set_a(30);
    }
    {
        let mut output =
            ParameterValueOutput::from_raw(TEE_PARAM_TYPE_VALUE_OUTPUT, &mut slot).unwrap();
        output.set_b(40);
    }
    assert_eq!((slot.value.a, slot.value.b), (30, 40));
    assert!(ParameterValueOutput::from_raw(TEE_PARAM_TYPE_VALUE_INPUT, &mut slot).is_err());
}

#[test]
fn typed_memref_parameters() {
    let slot = memref_slot(0x10, vec![5, 6, 7], 3);
    let input = ParameterMemrefInput::from_raw(TEE_PARAM_TYPE_MEMREF_INPUT, &slot).unwrap();
    assert_eq!(input.get_buffer(), &[5, 6, 7]);

    let mut slot = memref_slot(0x20, vec![0; 6], 4);
    {
        let mut output =
            ParameterMemrefOutput::from_raw(TEE_PARAM_TYPE_MEMREF_OUTPUT, &mut slot).unwrap();
        assert_eq!(output.get_capacity(), 4);
        assert_eq!(
            output.set_output(&[1, 2, 3, 4, 5]).unwrap_err().kind(),
            ErrorKind::ShortBuffer
        );
        output.set_output(&[1, 2]).unwrap();
        output.write_at(2, &[9, 9]).unwrap();
        assert!(output.write_at(3, &[1, 1]).is_err());
        assert_eq!(output.get_buffer_mut().len(), 4);
    }
    assert_eq!(slot.memref.contents, vec![1, 2, 9, 9, 0, 0]);
    assert_eq!(slot.memref.size, 4);

    let mut slot = memref_slot(0x30, vec![1, 1, 1], 3);
    {
        let mut inout =
            ParameterMemrefInout::from_raw(TEE_PARAM_TYPE_MEMREF_INOUT, &mut slot).unwrap();
        assert_eq!(inout.get_buffer(), &[1, 1, 1]);
        inout.set_updated_size(2).unwrap();
        assert!(inout.set_updated_size(4).is_err());
        inout.set_updated_size_unchecked(1);
    }
    assert_eq!(slot.memref.size, 1);
    assert!(ParameterMemrefInout::from_raw(TEE_PARAM_TYPE_MEMREF_OUTPUT, &mut slot).is_err());
}

#[test]
fn inout_buffer_reads_back_what_was_written() {
    let mut raw = RawParams(
        memref_slot(0x4000, vec![0u8; 5], 5),
        value_slot(0, 0),
        value_slot(0, 0),
        value_slot(0, 0),
    );
    let packed = types(TEE_PARAM_TYPE_MEMREF_INOUT, 0, 0, 0);
    {
        let mut params = Parameters::from_raw(&mut raw, packed);
        let m = params.0.as_memref().unwrap();
        let mut inout = m.inout().ok().unwrap();
        let mut buf = inout.buffer().unwrap();
        buf.copy_from(&[4, 5, 6]).unwrap();
        buf.write(4, 9).unwrap();
        assert_eq!(buf.read(4).unwrap(), 9);
        let mut out = [1u8; 7];
        buf.copy_to(&mut out).unwrap();
        assert_eq!(out, [4, 5, 6, 0, 9, 1, 1]);
        assert_eq!(buf.capacity(), 5);
    }
    assert_eq!(raw.0.memref.contents, vec![4, 5, 6, 0, 9]);
}

#[test]
fn write_at_past_the_end_of_usize_is_a_short_buffer() {
    let mut slot = memref_slot(0x50, vec![0u8; 4], 4);
    {
        let mut output =
            ParameterMemrefOutput::from_raw(TEE_PARAM_TYPE_MEMREF_OUTPUT, &mut slot).unwrap();
        let err = output.write_at(usize::MAX, &[1u8]).unwrap_err();
        assert_eq!(err.kind(), ErrorKind::ShortBuffer);
        let err = output.write_at(4, &[1u8]).unwrap_err();
        assert_eq!(err.kind(), ErrorKind::ShortBuffer);
        output.write_at(3, &[7u8]).unwrap();
    }
    assert_eq!(slot.memref.contents, vec![0, 0, 0, 7]);
    assert_eq!(slot.memref.size, 4);
}

#[test]
fn memref_capacity_survives_every_operation() {
    let mut raw = RawParams(
        memref_slot(0x60, vec![0u8; 8], 6),
        value_slot(0, 0),
        value_slot(0, 0),
        value_slot(0, 0),
    );
    let packed = types(TEE_PARAM_TYPE_MEMREF_INOUT, 0, 0, 0);
    let mut params = Parameters::from_raw(&mut raw, packed);
    let m = params.0.as_memref().unwrap();
    assert_eq!(m.capacity(), 6);
    let m = m.input().err().unwrap().into_inner();
    assert_eq!(m.capacity(), 6);
    let mut m = m.inout().ok().unwrap();
    assert!(m.set_updated_size(7).is_err());
    m.set_updated_size(2).unwrap();
    assert!(m.ensure_capacity(100).is_err());
    m.ensure_capacity(6).unwrap();
    assert_eq!(m.capacity(), 6);
    let m = m.noaccess();
    assert_eq!(m.capacity(), 6);
}
