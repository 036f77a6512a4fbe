use fit_file_native::outcome::{FailureKind, ParseResult};
use fit_file_native::record::{
    convert_field, convert_record, convert_records, DataField, DataRecord, Field, Record,
};
use fit_file_native::value::FieldValue;

fn field(name: &str, value: FieldValue, units: &str) -> Field {
    Field { name: String::from(name), value, units: String::from(units) }
}

fn data_field(name: &str, value: &str, units: Option<&str>) -> DataField {
    DataField {
        name: String::from(name),
        value: String::from(value),
        units: units.map(String::from),
    }
}

#[test]
fn empty_units_are_absent() {
    let out = convert_field(&field("cadence", FieldValue::UInt8(90), ""));
    assert_eq!(out.units, None);
    assert_eq!(out, data_field("cadence", "90", None));
}

#[test]
fn units_are_kept_when_present() {
    let out = convert_field(&field("heart_rate", FieldValue::UInt8(72), "bpm"));
    assert_eq!(out, data_field("heart_rate", "72", Some("bpm")));
}

#[test]
fn blank_units_are_not_empty() {
    let out = convert_field(&field("x", FieldValue::Invalid, " "));
    assert_eq!(out, data_field("x", "invalid", Some(" ")));
}

#[test]
fn units_are_never_present_and_empty() {
    let record = Record {
        kind: String::from("record"),
        fields: vec![
            field("a", FieldValue::UInt8(1), ""),
            field("b", FieldValue::UInt8(2), "m"),
            field("c", FieldValue::Array(vec![]), ""),
        ],
    };
    let out = convert_record(&record);
    for f in out.fields.iter() {
        assert_ne!(f.units, Some(String::new()));
    }
    assert_eq!(out.fields[0].units, None);
    assert_eq!(out.fields[1].units, Some(String::from("m")));
    assert_eq!(out.fields[2].units, None);
}

#[test]
fn value_carries_no_unit_suffix() {
    let out = convert_field(&field("speed", FieldValue::Float64(String::from("1.5")), "m/s"));
    assert_eq!(out.value, "1.5");
    assert_eq!(out.units, Some(String::from("m/s")));
}

#[test]
fn record_keeps_kind_and_field_order() {
    let record = Record {
        kind: String::from("session"),
        fields: vec![
            field("zeta", FieldValue::SInt16(-5), "C"),
            field("alpha", FieldValue::String(String::from("run")), ""),
            field("mid", FieldValue::Array(vec![FieldValue::UInt16(1), FieldValue::UInt16(2)]), "s"),
        ],
    };
    let expected = DataRecord {
        kind: String::from("session"),
        fields: vec![
            data_field("zeta", "-5", Some("C")),
            data_field("alpha", "run", None),
            data_field("mid", "[1, 2]", Some("s")),
        ],
    };
    assert_eq!(convert_record(&record), expected);
}

#[test]
fn repeated_names_are_kept() {
    let record = Record {
        kind: String::from("lap"),
        fields: vec![
            field("unknown", FieldValue::UInt8(1), ""),
            field("unknown", FieldValue::UInt8(2), ""),
            field("unknown", FieldValue::UInt8(1), ""),
        ],
    };
    let out = convert_record(&record);
    assert_eq!(
        out.fields,
        vec![
            data_field("unknown", "1", None),
            data_field("unknown", "2", None),
            data_field("unknown", "1", None),
        ]
    );
}

#[test]
fn record_without_fields() {
    let record = Record { kind: String::from("event"), fields: vec![] };
    assert_eq!(convert_record(&record), DataRecord { kind: String::from("event"), fields: vec![] });
}

#[test]
fn records_keep_their_order_and_their_fields() {
    let n = 5;
    let m = 4;
    let mut records = Vec::new();
    for i in 0..n {
        let mut fields = Vec::new();
        for j in 0..m {
            fields.push(field(
                &format!("f{}_{}", i, j),
                FieldValue::UInt32((i * 100 + j) as u32),
                if j % 2 == 0 { "u" } else { "" },
            ));
        }
        records.push(Record { kind: format!("kind{}", n - i), fields });
    }
    let out = convert_records(&records);
    assert_eq!(out.len(), n);
    for i in 0..n {
        assert_eq!(out[i].kind, format!("kind{}", n - i));
        assert_eq!(out[i].fields.len(), m);
        for j in 0..m {
            assert_eq!(out[i].fields[j].name, format!("f{}_{}", i, j));
            assert_eq!(out[i].fields[j].value, (i * 100 + j).to_string());
            let units = if j % 2 == 0 { Some(String::from("u")) } else { None };
            assert_eq!(out[i].fields[j].units, units);
        }
    }
}

#[test]
fn no_records_convert_to_none() {
    assert_eq!(convert_records(&Vec::new()), Vec::<DataRecord>::new());
}

#[test]
fn failure_kind_labels() {
    assert_eq!(FailureKind::ParseError.as_str(), "parse_error");
    assert_eq!(FailureKind::FileError.as_str(), "file_error");
    assert_eq!(FailureKind::IoError.as_str(), "io_error");
}

#[test]
fn outcome_tags() {
    let ok = ParseResult::Success(vec![]);
    let error = ParseResult::Failure(FailureKind::IoError, String::from("reserved"));
    assert_eq!(ok.tag(), "ok");
    assert_eq!(error.tag(), "error");
    assert!(ok.is_success());
    assert!(!error.is_success());
}
