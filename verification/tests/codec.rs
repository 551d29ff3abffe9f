use systemd_dbus::decode::{decode, DecoderError, Decoder};
use systemd_dbus::encode::{encode, Encodable, Encoder, EncoderError, EncoderErrorSpec};
use systemd_dbus::records::{
    Job, UnitAux, UnitFile, UnitFileChange, UnitFileChanges, UnitProperty, UnitStatus,
};
use systemd_dbus::text::{i64_to_string, u64_to_string};
use systemd_dbus::wire::{WireSpec, WireValue};

struct IntField {
    i: i64,
}

impl Encodable for IntField {
    // The ghost model is never evaluated at runtime; tests only exercise the
    // executable encoding.
    fn encode_spec(&self) -> Result<WireSpec, EncoderErrorSpec> {
        unreachable!()
    }

    fn encode_onto(&self, e: &mut Encoder) -> Result<(), EncoderError> {
        let mut sub = Encoder::new_struct();
        sub.emit_i64(self.i)?;
        sub.finish_into(e)
    }
}

enum TestEnum {
    A,
    B,
}

impl Encodable for TestEnum {
    fn encode_spec(&self) -> Result<WireSpec, EncoderErrorSpec> {
        unreachable!()
    }

    fn encode_onto(&self, e: &mut Encoder) -> Result<(), EncoderError> {
        match self {
            TestEnum::A => e.emit_enum_variant("A"),
            TestEnum::B => e.emit_enum_variant("B"),
        }
    }
}

#[test]
fn encode_struct_with_int_field() {
    let ifield = IntField { i: 42 };
    let v = encode(&ifield).unwrap();
    assert_eq!(WireValue::Struct(vec![WireValue::Int64(42)]), v);
}

#[test]
fn encode_enum() {
    let e = TestEnum::A;
    let v = encode(&e).unwrap();
    assert_eq!(WireValue::Str("a".to_string()), v);
}

#[test]
fn encode_enum_second_variant() {
    let v = encode(&TestEnum::B).unwrap();
    assert_eq!(WireValue::Str("b".to_string()), v);
}

#[test]
fn enum_variant_lowercases_mixed_case_names() {
    let mut e = Encoder::new();
    e.emit_enum_variant("StopUnit9").unwrap();
    assert_eq!(e.value().unwrap(), WireValue::Str("stopunit9".to_string()));
}

#[test]
fn decode_struct_with_int_field() {
    let mut d = Decoder::new(vec![WireValue::Struct(vec![WireValue::Int64(42)])]);
    let mut sub = d.read_struct().unwrap();
    assert_eq!(sub.read_i64().unwrap(), 42);
}

#[test]
fn round_trip_u16() {
    let w = encode(&4242u16).unwrap();
    assert_eq!(w, WireValue::UInt16(4242));
    assert_eq!(decode::<u16>(vec![w]), Ok(4242u16));
}

#[test]
fn round_trip_u32() {
    let w = encode(&7u32).unwrap();
    assert_eq!(w, WireValue::UInt32(7));
    assert_eq!(decode::<u32>(vec![w]), Ok(7u32));
}

#[test]
fn round_trip_u64() {
    let v = u64::MAX;
    let w = encode(&v).unwrap();
    assert_eq!(w, WireValue::UInt64(v));
    assert_eq!(decode::<u64>(vec![w]), Ok(v));
}

#[test]
fn round_trip_i16() {
    let w = encode(&-123i16).unwrap();
    assert_eq!(w, WireValue::Int16(-123));
    assert_eq!(decode::<i16>(vec![w]), Ok(-123i16));
}

#[test]
fn round_trip_i32() {
    let w = encode(&i32::MIN).unwrap();
    assert_eq!(decode::<i32>(vec![w]), Ok(i32::MIN));
}

#[test]
fn round_trip_i64() {
    let w = encode(&i64::MIN).unwrap();
    assert_eq!(w, WireValue::Int64(i64::MIN));
    assert_eq!(decode::<i64>(vec![w]), Ok(i64::MIN));
}

#[test]
fn round_trip_bool() {
    assert_eq!(decode::<bool>(vec![encode(&true).unwrap()]), Ok(true));
    assert_eq!(decode::<bool>(vec![encode(&false).unwrap()]), Ok(false));
}

#[test]
fn round_trip_string() {
    let s = "syslog.socket".to_string();
    let w = encode(&s).unwrap();
    assert_eq!(w, WireValue::Str("syslog.socket".to_string()));
    assert_eq!(decode::<String>(vec![w]), Ok(s));
}

#[test]
fn round_trip_usize() {
    let w = encode(&5usize).unwrap();
    assert_eq!(w, WireValue::UInt64(5));
    assert_eq!(decode::<usize>(vec![w]), Ok(5usize));
    let big = usize::MAX;
    let w = encode(&big).unwrap();
    assert_eq!(w, WireValue::UInt64(big as u64));
    assert_eq!(decode::<usize>(vec![w]), Ok(big));
}

#[test]
fn round_trip_isize() {
    let v = isize::MIN;
    let w = encode(&v).unwrap();
    assert_eq!(w, WireValue::Int64(v as i64));
    assert_eq!(decode::<isize>(vec![w]), Ok(v));
}

#[test]
fn encode_i8_as_byte_bit_pattern() {
    assert_eq!(encode(&-1i8).unwrap(), WireValue::Byte(255));
}

#[test]
fn byte_does_not_decode_as_integer() {
    assert_eq!(
        decode::<u8>(vec![WireValue::Byte(42)]),
        Err(DecoderError::ExpectedError(
            "Number".to_string(),
            "Byte(42)".to_string()
        ))
    );
}

#[test]
fn array_shape_preserved() {
    let v: Vec<i64> = vec![10, 20, 30];
    let w = encode(&v).unwrap();
    assert_eq!(
        w,
        WireValue::Array(
            vec![
                WireValue::Int64(10),
                WireValue::Int64(20),
                WireValue::Int64(30)
            ],
            3
        )
    );
    assert_eq!(decode::<Vec<i64>>(vec![w]), Ok(vec![10i64, 20, 30]));
}

#[test]
fn overflow_rejected() {
    assert_eq!(
        decode::<u8>(vec![WireValue::Int64(99999)]),
        Err(DecoderError::ExpectedError(
            "Number".to_string(),
            "99999".to_string()
        ))
    );
}

#[test]
fn negative_rejected_for_unsigned() {
    assert_eq!(
        decode::<u16>(vec![WireValue::Int16(-3)]),
        Err(DecoderError::ExpectedError(
            "Number".to_string(),
            "-3".to_string()
        ))
    );
}

#[test]
fn widening_between_integer_kinds() {
    assert_eq!(decode::<u64>(vec![WireValue::UInt16(9)]), Ok(9u64));
    assert_eq!(decode::<i64>(vec![WireValue::Int32(-9)]), Ok(-9i64));
    assert_eq!(decode::<u8>(vec![WireValue::Int64(255)]), Ok(255u8));
}

#[test]
fn double_rejected_as_integer() {
    assert_eq!(
        decode::<i32>(vec![WireValue::Double(0)]),
        Err(DecoderError::ExpectedError(
            "Number".to_string(),
            "Double".to_string()
        ))
    );
}

#[test]
fn scalar_emit_once() {
    let mut e = Encoder::new();
    e.emit_i64(1).unwrap();
    assert_eq!(
        e.emit_i64(2),
        Err(EncoderError::InternalEncodeError(
            "Item already has a value".to_string()
        ))
    );
}

#[test]
fn empty_scalar_encoder_has_no_value() {
    let e = Encoder::new();
    assert_eq!(
        e.value(),
        Err(EncoderError::InternalEncodeError("no value set".to_string()))
    );
}

#[test]
fn tuple_arity_mismatch() {
    let mut d = Decoder::new(vec![WireValue::Array(
        vec![WireValue::Int64(1), WireValue::Int64(2)],
        2,
    )]);
    assert_eq!(
        d.read_tuple(3),
        Err(DecoderError::ExpectedError(
            "Tuple3".to_string(),
            "Tuple2".to_string()
        ))
    );
}

#[test]
fn tuple_arity_match_consumes_header() {
    let mut d = Decoder::new(vec![WireValue::Array(
        vec![WireValue::Int64(1), WireValue::Int64(2)],
        2,
    )]);
    d.read_tuple(2).unwrap();
    assert_eq!(d.read_i64().unwrap(), 1);
    assert_eq!(d.read_i64().unwrap(), 2);
}

#[test]
fn map_decode_not_implemented() {
    let mut d = Decoder::new(vec![]);
    assert_eq!(
        d.read_map(),
        Err(DecoderError::NotImplemented("map".to_string()))
    );
}

#[test]
fn nil_decode_not_implemented() {
    let mut d = Decoder::new(vec![]);
    assert_eq!(
        d.read_nil(),
        Err(DecoderError::NotImplemented("nil".to_string()))
    );
}

#[test]
fn map_encode_not_implemented() {
    let mut e = Encoder::new();
    assert_eq!(
        e.emit_map(),
        Err(EncoderError::EncodeNotImplemented(
            "Encode not implemented for map".to_string()
        ))
    );
}

#[test]
fn option_encode_not_implemented() {
    let mut e = Encoder::new();
    assert_eq!(
        e.emit_option(),
        Err(EncoderError::EncodeNotImplemented(
            "Encode not implemented for Option".to_string()
        ))
    );
}

#[test]
fn char_and_nil_and_tuple_encode_not_implemented() {
    let mut e = Encoder::new();
    assert_eq!(
        e.emit_char('x'),
        Err(EncoderError::EncodeNotImplemented(
            "Encode not implemented for char".to_string()
        ))
    );
    assert_eq!(
        e.emit_nil(),
        Err(EncoderError::EncodeNotImplemented(
            "Encoding not implemented for nil".to_string()
        ))
    );
    assert_eq!(
        e.emit_tuple(2),
        Err(EncoderError::EncodeNotImplemented(
            "Encode not implemented for tuple".to_string()
        ))
    );
}

#[test]
fn option_decode_reports_present() {
    let mut d = Decoder::new(vec![WireValue::Bool(true)]);
    assert_eq!(d.read_option(), Ok(true));
    assert_eq!(d.read_bool(), Ok(true));
}

#[test]
fn unknown_variant() {
    let mut d = Decoder::new(vec![WireValue::Str("z".to_string())]);
    assert_eq!(
        d.read_enum_variant(&["A", "B"]),
        Err(DecoderError::UnknownVariantError("z".to_string()))
    );
}

#[test]
fn variant_matched_case_sensitively() {
    let mut d = Decoder::new(vec![WireValue::Str("a".to_string())]);
    assert_eq!(
        d.read_enum_variant(&["A", "B"]),
        Err(DecoderError::UnknownVariantError("a".to_string()))
    );
    let mut d = Decoder::new(vec![WireValue::Str("b".to_string())]);
    assert_eq!(d.read_enum_variant(&["a", "b"]), Ok(1));
}

#[test]
fn exhausted_stack_is_an_application_error() {
    assert_eq!(
        decode::<u8>(vec![]),
        Err(DecoderError::ApplicationError("Nothing to pop".to_string()))
    );
}

#[test]
fn round_trip_char_single_character_string() {
    assert_eq!(decode::<char>(vec![WireValue::Str("x".to_string())]), Ok('x'));
}

#[test]
fn char_rejects_longer_strings() {
    assert_eq!(
        decode::<char>(vec![WireValue::Str("xy".to_string())]),
        Err(DecoderError::ExpectedError(
            "single character string".to_string(),
            "xy".to_string()
        ))
    );
}

#[test]
fn object_path_decodes_as_string() {
    assert_eq!(
        decode::<String>(vec![WireValue::ObjectPath("/org/freedesktop".to_string())]),
        Ok("/org/freedesktop".to_string())
    );
}

#[test]
fn bool_kind_mismatch() {
    assert_eq!(
        decode::<bool>(vec![WireValue::Int64(1)]),
        Err(DecoderError::ExpectedError(
            "Bool".to_string(),
            "Int64(1)".to_string()
        ))
    );
}

#[test]
fn str_kind_mismatch() {
    assert_eq!(
        decode::<String>(vec![WireValue::Bool(true)]),
        Err(DecoderError::ExpectedError(
            "Str".to_string(),
            "Bool(true)".to_string()
        ))
    );
}

#[test]
fn struct_kind_mismatch() {
    assert_eq!(
        decode::<UnitFile>(vec![WireValue::Int64(1)]),
        Err(DecoderError::ExpectedError(
            "Struct".to_string(),
            "Int64(1)".to_string()
        ))
    );
}

#[test]
fn array_kind_mismatch() {
    assert_eq!(
        decode::<Vec<i64>>(vec![WireValue::Bool(false)]),
        Err(DecoderError::ExpectedError(
            "Array".to_string(),
            "Bool(false)".to_string()
        ))
    );
}

#[test]
fn trailing_values_are_ignored() {
    assert_eq!(
        decode::<u32>(vec![WireValue::UInt32(5), WireValue::Bool(true)]),
        Ok(5u32)
    );
}

#[test]
fn round_trip_unit_file() {
    let v = UnitFile {
        name: "syslog.socket".to_string(),
        state: "enabled".to_string(),
    };
    let w = encode(&v).unwrap();
    assert_eq!(
        w,
        WireValue::Struct(vec![
            WireValue::Str("syslog.socket".to_string()),
            WireValue::Str("enabled".to_string())
        ])
    );
    assert_eq!(decode::<UnitFile>(vec![w]), Ok(v));
}

#[test]
fn round_trip_unit_property() {
    let v = UnitProperty {
        name: "Description".to_string(),
        value: "Syslog".to_string(),
    };
    let w = encode(&v).unwrap();
    assert_eq!(decode::<UnitProperty>(vec![w]), Ok(v));
}

#[test]
fn round_trip_job() {
    let v = Job {
        job_id: 7,
        name: "syslog.service".to_string(),
        job_type: "start".to_string(),
        job_state: "waiting".to_string(),
        job_path: "/org/freedesktop/systemd1/job/7".to_string(),
        path: "/org/freedesktop/systemd1/unit/syslog".to_string(),
    };
    let w = encode(&v).unwrap();
    assert_eq!(decode::<Job>(vec![w]), Ok(v));
}

#[test]
fn round_trip_unit_status() {
    let v = UnitStatus {
        name: "syslog.service".to_string(),
        description: "System logger".to_string(),
        load_state: "loaded".to_string(),
        active_state: "active".to_string(),
        sub_state: "running".to_string(),
        followed: "".to_string(),
        path: "/org/freedesktop/systemd1/unit/syslog".to_string(),
        job_id: 0,
        job_type: "".to_string(),
        job_path: "/".to_string(),
    };
    let w = encode(&v).unwrap();
    assert_eq!(decode::<UnitStatus>(vec![w]), Ok(v));
}

#[test]
fn round_trip_unit_file_changes() {
    let v = UnitFileChanges {
        carries_install_info: true,
        changes: vec![
            UnitFileChange {
                action: "symlink".to_string(),
                link: "/etc/a".to_string(),
                destination: "/usr/b".to_string(),
            },
            UnitFileChange {
                action: "unlink".to_string(),
                link: "/etc/c".to_string(),
                destination: "".to_string(),
            },
        ],
    };
    let w = encode(&v).unwrap();
    assert_eq!(decode::<UnitFileChanges>(vec![w]), Ok(v));
}

#[test]
fn round_trip_unit_aux() {
    let v = UnitAux {
        name: "syslog.service".to_string(),
        properties: vec![UnitProperty {
            name: "Description".to_string(),
            value: "Syslog".to_string(),
        }],
    };
    let w = encode(&v).unwrap();
    assert_eq!(decode::<UnitAux>(vec![w]), Ok(v));
}

#[test]
fn round_trip_empty_vec() {
    let v: Vec<i64> = vec![];
    let w = encode(&v).unwrap();
    assert_eq!(w, WireValue::Array(vec![], 0));
    assert_eq!(decode::<Vec<i64>>(vec![w]), Ok(vec![]));
}

#[test]
fn nested_struct_in_array_elements_decode_in_order() {
    let w = WireValue::Array(
        vec![
            WireValue::Struct(vec![
                WireValue::Str("a".to_string()),
                WireValue::Str("1".to_string()),
            ]),
            WireValue::Struct(vec![
                WireValue::Str("b".to_string()),
                WireValue::Str("2".to_string()),
            ]),
        ],
        2,
    );
    let got = decode::<Vec<UnitProperty>>(vec![w]).unwrap();
    assert_eq!(got.len(), 2);
    assert_eq!(got[0].name, "a");
    assert_eq!(got[1].value, "2");
}

#[test]
fn decimal_rendering() {
    assert_eq!(u64_to_string(0), "0");
    assert_eq!(u64_to_string(1234567890), "1234567890");
    assert_eq!(u64_to_string(u64::MAX), "18446744073709551615");
    assert_eq!(i64_to_string(-1), "-1");
    assert_eq!(i64_to_string(i64::MIN), "-9223372036854775808");
    assert_eq!(i64_to_string(42), "42");
}
