use chrono::{Local, TimeZone};
use fit_file_native::decoder::records_of;
use fit_file_native::entry::route_decoded;
use fit_file_native::outcome::ParseResult;
use fit_file_native::record::{convert_record, Field, Record};
use fit_file_native::value::{value_to_string, FieldValue};
use fitparser::profile::MesgNum;
use fitparser::{FitDataField, FitDataRecord, Value};

fn decoded_field(name: &str, number: u8, value: Value, units: &str) -> FitDataField {
    FitDataField::new(String::from(name), number, None, value, String::from(units))
}

fn one_field_record(value: Value) -> Vec<FitDataRecord> {
    let mut record = FitDataRecord::new(MesgNum::Record);
    record.push(decoded_field("x", 0, value, "u"));
    vec![record]
}

/// The value that this library holds for one value of the decoder.
fn model_of(value: Value) -> FieldValue {
    let mut records = records_of(&one_field_record(value));
    assert_eq!(records.len(), 1);
    let mut record = records.remove(0);
    assert_eq!(record.kind, "record");
    assert_eq!(record.fields.len(), 1);
    let field = record.fields.remove(0);
    assert_eq!(field.name, "x");
    assert_eq!(field.units, "u");
    field.value
}

#[test]
fn model_of_byte() {
    assert_eq!(model_of(Value::Byte(255)), FieldValue::Byte(255));
}

#[test]
fn model_of_enum() {
    assert_eq!(model_of(Value::Enum(4)), FieldValue::Enum(4));
}

#[test]
fn model_of_sint8() {
    assert_eq!(model_of(Value::SInt8(-128)), FieldValue::SInt8(-128));
}

#[test]
fn model_of_uint8() {
    assert_eq!(model_of(Value::UInt8(72)), FieldValue::UInt8(72));
}

#[test]
fn model_of_uint8z() {
    assert_eq!(model_of(Value::UInt8z(0)), FieldValue::UInt8z(0));
}

#[test]
fn model_of_sint16() {
    assert_eq!(model_of(Value::SInt16(-32768)), FieldValue::SInt16(-32768));
}

#[test]
fn model_of_uint16() {
    assert_eq!(model_of(Value::UInt16(65535)), FieldValue::UInt16(65535));
}

#[test]
fn model_of_uint16z() {
    assert_eq!(model_of(Value::UInt16z(1000)), FieldValue::UInt16z(1000));
}

#[test]
fn model_of_sint32() {
    assert_eq!(model_of(Value::SInt32(i32::MIN)), FieldValue::SInt32(i32::MIN));
}

#[test]
fn model_of_uint32() {
    assert_eq!(model_of(Value::UInt32(u32::MAX)), FieldValue::UInt32(u32::MAX));
}

#[test]
fn model_of_uint32z() {
    assert_eq!(model_of(Value::UInt32z(100000)), FieldValue::UInt32z(100000));
}

#[test]
fn model_of_sint64() {
    assert_eq!(model_of(Value::SInt64(i64::MIN)), FieldValue::SInt64(i64::MIN));
}

#[test]
fn model_of_uint64() {
    assert_eq!(model_of(Value::UInt64(u64::MAX)), FieldValue::UInt64(u64::MAX));
}

#[test]
fn model_of_uint64z() {
    assert_eq!(model_of(Value::UInt64z(10)), FieldValue::UInt64z(10));
}

#[test]
fn model_of_string() {
    assert_eq!(
        model_of(Value::String(String::from("garmin"))),
        FieldValue::String(String::from("garmin"))
    );
    assert_eq!(model_of(Value::String(String::new())), FieldValue::String(String::new()));
}

#[test]
fn model_of_float32() {
    assert_eq!(model_of(Value::Float32(1.5)), FieldValue::Float32(String::from("1.5")));
    assert_eq!(model_of(Value::Float32(0.1)), FieldValue::Float32(String::from("0.1")));
}

#[test]
fn model_of_float64() {
    assert_eq!(model_of(Value::Float64(0.467)), FieldValue::Float64(String::from("0.467")));
    assert_eq!(model_of(Value::Float64(f64::NAN)), FieldValue::Float64(String::from("NaN")));
    assert_eq!(
        model_of(Value::Float64(f64::NEG_INFINITY)),
        FieldValue::Float64(String::from("-inf"))
    );
}

#[test]
fn model_of_timestamp() {
    let instant = Local.timestamp_opt(1_631_000_000, 0).unwrap();
    let expected = format!("{:?}", instant);
    assert!(!expected.is_empty());
    assert_eq!(model_of(Value::Timestamp(instant)), FieldValue::Timestamp(expected.clone()));
    assert_eq!(value_to_string(&model_of(Value::Timestamp(instant))), expected);
}

#[test]
fn model_of_invalid() {
    assert_eq!(model_of(Value::Invalid), FieldValue::Invalid);
}

#[test]
fn model_of_array() {
    assert_eq!(model_of(Value::Array(vec![])), FieldValue::Array(vec![]));
    assert_eq!(
        model_of(Value::Array(vec![Value::UInt16(1), Value::Invalid, Value::Float64(0.5)])),
        FieldValue::Array(vec![
            FieldValue::UInt16(1),
            FieldValue::Invalid,
            FieldValue::Float64(String::from("0.5")),
        ])
    );
}

#[test]
fn model_of_nested_array() {
    let decoded = Value::Array(vec![
        Value::Array(vec![Value::SInt8(1)]),
        Value::Array(vec![Value::Array(vec![]), Value::String(String::from("a"))]),
        Value::UInt8(2),
    ]);
    let expected = FieldValue::Array(vec![
        FieldValue::Array(vec![FieldValue::SInt8(1)]),
        FieldValue::Array(vec![FieldValue::Array(vec![]), FieldValue::String(String::from("a"))]),
        FieldValue::UInt8(2),
    ]);
    let model = model_of(decoded);
    assert_eq!(model, expected);
    assert_eq!(value_to_string(&model), "[[1], [[], a], 2]");
}

#[test]
fn model_of_deeply_nested_array() {
    let depth = 100;
    let mut decoded = Value::UInt8(7);
    let mut expected = String::from("7");
    for _ in 0..depth {
        decoded = Value::Array(vec![decoded]);
        expected = format!("[{}]", expected);
    }
    assert_eq!(value_to_string(&model_of(decoded)), expected);
}

#[test]
fn records_keep_kind_order_and_fields() {
    let mut first = FitDataRecord::new(MesgNum::Session);
    first.push(decoded_field("zeta", 9, Value::UInt8(1), ""));
    first.push(decoded_field("alpha", 1, Value::SInt16(-5), "C"));
    first.push(decoded_field("alpha", 1, Value::Float64(2.5), "m/s"));
    let second = FitDataRecord::new(MesgNum::Lap);
    let mut third = FitDataRecord::new(MesgNum::FileId);
    third.push(decoded_field("type", 0, Value::String(String::from("activity")), ""));
    let records = records_of(&vec![first, second, third]);
    let field = |name: &str, value: FieldValue, units: &str| Field {
        name: String::from(name),
        value,
        units: String::from(units),
    };
    let expected = vec![
        Record {
            kind: String::from("session"),
            fields: vec![
                field("zeta", FieldValue::UInt8(1), ""),
                field("alpha", FieldValue::SInt16(-5), "C"),
                field("alpha", FieldValue::Float64(String::from("2.5")), "m/s"),
            ],
        },
        Record { kind: String::from("lap"), fields: vec![] },
        Record {
            kind: String::from("file_id"),
            fields: vec![field("type", FieldValue::String(String::from("activity")), "")],
        },
    ];
    assert_eq!(records, expected);
    let converted = convert_record(&records[0]);
    assert_eq!(converted.fields[0].units, None);
    assert_eq!(converted.fields[2].value, "2.5");
    assert_eq!(converted.fields[2].units, Some(String::from("m/s")));
    match route_decoded(Ok(records)) {
        ParseResult::Success(out) => {
            let kinds: Vec<&str> = out.iter().map(|r| r.kind.as_str()).collect();
            assert_eq!(kinds, vec!["session", "lap", "file_id"]);
        }
        other => panic!("{:?}", other),
    }
}

#[test]
fn no_records_give_none() {
    assert_eq!(records_of(&Vec::new()), Vec::<Record>::new());
}
