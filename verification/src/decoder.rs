//! The boundary to the FIT decoder.
//!
//! The decoder is the `fitparser` crate. This library does not call the
//! decoder on bytes: the decoder can stop the process instead of returning,
//! on a buffer whose header declares more than the buffer holds and on a
//! machine whose time zone lacks the start of the FIT calendar, so whoever
//! calls it has to be ready for that. Its answer enters this library as an
//! argument.
//!
//! Nothing in this file is proved of the decoder: each function marked
//! `external_body` is believed as it is written. What a decoded record holds
//! is named, not stated: the spec functions without a body stand for what
//! the decoder's accessors return, and the functions that build this
//! library's records are proved to hold exactly that.

use crate::record::{converted_records, DataFieldView, DataRecordView, Field, Record};
use crate::value::{renderings, FieldValue};
use fitparser::Value as Decoded;
use vstd::prelude::*;

verus! {

/// One decoded message of `fitparser`, opaque to the verifier.
#[verifier::external_type_specification]
#[verifier::external_body]
pub struct ExFitDataRecord(fitparser::FitDataRecord);

/// One field of a decoded message of `fitparser`, opaque to the verifier.
#[verifier::external_type_specification]
#[verifier::external_body]
pub struct ExFitDataField(fitparser::FitDataField);

/// The value union of `fitparser`, opaque to the verifier.
#[verifier::external_type_specification]
#[verifier::external_body]
pub struct ExDecodedValue(fitparser::Value);

/// The decoder's error, opaque to the verifier.
#[verifier::external_type_specification]
#[verifier::external_body]
pub struct ExDecodeError(fitparser::ErrorKind);

/// The `Debug` text of the decoder's error. Nothing is claimed of it: it is
/// for a human reader.
#[verifier::external_body]
fn error_text(error: &fitparser::ErrorKind) -> (text: String) {
    format!("{:?}", error)
}

/// The text that `FitDataRecord::kind` gives by its `Display`: the record
/// holds its kind, so the text belongs to the record alone.
pub uninterp spec fn decoded_kind(record: fitparser::FitDataRecord) -> Seq<char>;

/// The fields that `FitDataRecord::fields` hands out: those that the record
/// holds, in the order in which it holds them.
pub uninterp spec fn decoded_fields(record: fitparser::FitDataRecord) -> Seq<
    fitparser::FitDataField,
>;

/// The text that `FitDataField::name` returns: the name that the field holds.
pub uninterp spec fn decoded_name(field: fitparser::FitDataField) -> Seq<char>;

/// The text that `FitDataField::units` returns: the unit text that the field
/// holds.
pub uninterp spec fn decoded_units(field: fitparser::FitDataField) -> Seq<char>;

/// The value that `FitDataField::value` returns: the one that the field
/// holds.
pub uninterp spec fn decoded_value(field: fitparser::FitDataField) -> Decoded;

/// The value of this library that stands for a value of the decoder: the
/// variant of the same name, with the same integer or text, a floating-point
/// number by the text of its `Display`, a timestamp by the text of its
/// `Debug`, a sequence element by element.
pub uninterp spec fn value_model(value: Decoded) -> FieldValue;

/// The elements that a sequence of the decoder holds, in their order; it
/// says nothing of a value that is no sequence.
pub uninterp spec fn decoded_items(value: Decoded) -> Seq<Decoded>;

/// How deep sequences are nested in a value of the decoder. A value owns
/// its elements, so the nesting is finite and each element lies less deep
/// than the sequence that holds it.
pub uninterp spec fn decoded_depth(value: Decoded) -> nat;

/// Tells whether `out` holds what `model` holds: for two sequences, as many
/// elements, each holding what the one at its place holds; for anything
/// else, the same value.
pub open spec fn same_value(out: FieldValue, model: FieldValue) -> bool
    decreases out,
{
    if out is Array && model is Array {
        &&& out->Array_0@.len() == model->Array_0@.len()
        &&& forall|i: int|
            0 <= i < out->Array_0@.len() ==> same_value(
                #[trigger] out->Array_0@[i],
                model->Array_0@[i],
            )
    } else {
        out == model
    }
}

/// Two values that hold the same have the same canonical text.
pub proof fn lemma_same_value_renders_alike(out: FieldValue, model: FieldValue)
    requires
        same_value(out, model),
    ensures
        out.rendering() == model.rendering(),
    decreases out,
{
    if out is Array && model is Array {
        let left = out->Array_0@;
        let right = model->Array_0@;
        assert forall|i: int| 0 <= i < left.len() implies (#[trigger] renderings(left)[i])
            == renderings(right)[i] by {
            lemma_same_value_renders_alike(left[i], right[i]);
        }
        assert(renderings(left) =~= renderings(right));
    }
}

/// Tells whether `value` is an integer of 8 or 16 bits.
pub open spec fn is_narrow_integer(value: FieldValue) -> bool {
    value is Byte || value is Enum || value is SInt8 || value is UInt8 || value is UInt8z
        || value is SInt16 || value is UInt16 || value is UInt16z
}

/// Tells whether `value` is an integer of 32 or 64 bits.
pub open spec fn is_wide_integer(value: FieldValue) -> bool {
    value is SInt32 || value is UInt32 || value is UInt32z || value is SInt64 || value is UInt64
        || value is UInt64z
}

/// Tells whether `value` is one that this library holds as text.
pub open spec fn is_text(value: FieldValue) -> bool {
    value is String || value is Float32 || value is Float64 || value is Timestamp
}

/// What stands for a value of the decoder where sequences are not followed:
/// the invalid marker for a sequence, the value's model for anything else.
pub open spec fn scalar_model(value: Decoded) -> FieldValue {
    if value_model(value) is Array {
        FieldValue::Invalid
    } else {
        value_model(value)
    }
}

/// Tells whether `out` holds what the decoder's field holds: its name, the
/// model of its value, and its unit text.
pub open spec fn stands_for_field(out: Field, field: fitparser::FitDataField) -> bool {
    &&& out.name@ == decoded_name(field)
    &&& same_value(out.value, value_model(decoded_value(field)))
    &&& out.units@ == decoded_units(field)
}

/// Tells whether `out` holds what the decoder's record holds: its kind, and
/// field by field, in the same order, what each of its fields holds.
pub open spec fn stands_for_record(out: Record, record: fitparser::FitDataRecord) -> bool {
    &&& out.kind@ == decoded_kind(record)
    &&& out.fields@.len() == decoded_fields(record).len()
    &&& forall|i: int|
        0 <= i < out.fields@.len() ==> stands_for_field(
            #[trigger] out.fields@[i],
            decoded_fields(record)[i],
        )
}

/// Calls `FitDataRecord::kind` and renders the message type by its
/// `Display`, which gives the profile's name of the type.
#[verifier::external_body]
fn record_kind(record: &fitparser::FitDataRecord) -> (kind: String)
    ensures
        kind@ == decoded_kind(*record),
{
    record.kind().to_string()
}

/// Calls `FitDataRecord::fields`, which hands out the record's fields as a
/// slice, in the order in which they were pushed.
#[verifier::external_body]
fn record_fields(record: &fitparser::FitDataRecord) -> (fields: &[fitparser::FitDataField])
    ensures
        fields@ == decoded_fields(*record),
{
    record.fields()
}

/// Calls `FitDataField::name`.
#[verifier::external_body]
fn field_name(field: &fitparser::FitDataField) -> (name: &str)
    ensures
        name@ == decoded_name(*field),
{
    field.name()
}

/// Calls `FitDataField::units`; the text is empty where the profile gives
/// the field no unit.
#[verifier::external_body]
fn field_units(field: &fitparser::FitDataField) -> (units: &str)
    ensures
        units@ == decoded_units(*field),
{
    field.units()
}

/// Calls `FitDataField::value`.
#[verifier::external_body]
fn field_value(field: &fitparser::FitDataField) -> (value: &Decoded)
    ensures
        *value == decoded_value(*field),
{
    field.value()
}

/// Tells the 8- and 16-bit integer variants of the decoder's value apart and
/// moves the integer over; `None` for every other variant.
#[verifier::external_body]
fn narrow_integer_of(value: &Decoded) -> (out: Option<FieldValue>)
    ensures
        out == if is_narrow_integer(value_model(*value)) {
            Some(value_model(*value))
        } else {
            None
        },
{
    match value {
        Decoded::Byte(x) => Some(FieldValue::Byte(*x)),
        Decoded::Enum(x) => Some(FieldValue::Enum(*x)),
        Decoded::SInt8(x) => Some(FieldValue::SInt8(*x)),
        Decoded::UInt8(x) => Some(FieldValue::UInt8(*x)),
        Decoded::UInt8z(x) => Some(FieldValue::UInt8z(*x)),
        Decoded::SInt16(x) => Some(FieldValue::SInt16(*x)),
        Decoded::UInt16(x) => Some(FieldValue::UInt16(*x)),
        Decoded::UInt16z(x) => Some(FieldValue::UInt16z(*x)),
        _ => None,
    }
}

/// Tells the 32- and 64-bit integer variants of the decoder's value apart
/// and moves the integer over; `None` for every other variant.
#[verifier::external_body]
fn wide_integer_of(value: &Decoded) -> (out: Option<FieldValue>)
    ensures
        out == if is_wide_integer(value_model(*value)) {
            Some(value_model(*value))
        } else {
            None
        },
{
    match value {
        Decoded::SInt32(x) => Some(FieldValue::SInt32(*x)),
        Decoded::UInt32(x) => Some(FieldValue::UInt32(*x)),
        Decoded::UInt32z(x) => Some(FieldValue::UInt32z(*x)),
        Decoded::SInt64(x) => Some(FieldValue::SInt64(*x)),
        Decoded::UInt64(x) => Some(FieldValue::UInt64(*x)),
        Decoded::UInt64z(x) => Some(FieldValue::UInt64z(*x)),
        _ => None,
    }
}

/// Tells the variants of the decoder's value that this library holds as
/// text apart: a string is copied, a floating-point number is rendered by
/// its `Display`, a timestamp by its `Debug`; `None` for every other variant.
#[verifier::external_body]
fn text_value_of(value: &Decoded) -> (out: Option<FieldValue>)
    ensures
        out == if is_text(value_model(*value)) {
            Some(value_model(*value))
        } else {
            None
        },
{
    match value {
        Decoded::String(s) => Some(FieldValue::String(s.clone())),
        Decoded::Float32(x) => Some(FieldValue::Float32(x.to_string())),
        Decoded::Float64(x) => Some(FieldValue::Float64(x.to_string())),
        Decoded::Timestamp(t) => Some(FieldValue::Timestamp(format!("{:?}", t))),
        _ => None,
    }
}

/// The value of this library for a value of the decoder that is no
/// sequence: its model. For a sequence, which this function does not
/// follow, the invalid marker.
fn scalar_of(value: &Decoded) -> (out: FieldValue)
    ensures
        out == scalar_model(*value),
{
    match narrow_integer_of(value) {
        Some(out) => out,
        None => match wide_integer_of(value) {
            Some(out) => out,
            None => match text_value_of(value) {
                Some(out) => out,
                None => FieldValue::Invalid,
            },
        },
    }
}

/// Tells the sequence variant of the decoder's value apart and hands out
/// its elements; `None` for every other variant. The model of a sequence
/// is the sequence of its elements' models, and each element lies less deep
/// than the sequence.
#[verifier::external_body]
fn array_items(value: &Decoded) -> (items: Option<&[Decoded]>)
    ensures
        items is Some <==> value_model(*value) is Array,
        items matches Some(found) ==> {
            &&& found@ == decoded_items(*value)
            &&& value_model(*value)->Array_0@.len() == found@.len()
            &&& forall|i: int|
                0 <= i < found@.len() ==> (#[trigger] value_model(*value)->Array_0@[i])
                    == value_model(found@[i])
            &&& forall|i: int|
                0 <= i < found@.len() ==> decoded_depth(#[trigger] found@[i]) < decoded_depth(
                    *value,
                )
        },
{
    match value {
        Decoded::Array(items) => Some(items.as_slice()),
        _ => None,
    }
}

/// The value of this library for a value of the decoder: a sequence
/// element by element, to any depth, anything else by [`scalar_of`].
fn value_of(value: &Decoded) -> (out: FieldValue)
    ensures
        same_value(out, value_model(*value)),
    decreases decoded_depth(*value),
{
    match array_items(value) {
        Some(items) => {
            let mut elements: Vec<FieldValue> = Vec::new();
            let mut i: usize = 0;
            while i < items.len()
                invariant
                    i <= items.len(),
                    elements@.len() == i,
                    value_model(*value) is Array,
                    value_model(*value)->Array_0@.len() == items@.len(),
                    forall|j: int|
                        0 <= j < items@.len() ==> (#[trigger] value_model(*value)->Array_0@[j])
                            == value_model(items@[j]),
                    forall|j: int|
                        0 <= j < items@.len() ==> decoded_depth(#[trigger] items@[j])
                            < decoded_depth(*value),
                    forall|j: int|
                        0 <= j < i ==> same_value(
                            #[trigger] elements@[j],
                            value_model(*value)->Array_0@[j],
                        ),
                decreases items.len() - i,
            {
                let element = value_of(&items[i]);
                elements.push(element);
                i += 1;
            }
            FieldValue::Array(elements)
        },
        None => scalar_of(value),
    }
}

/// The field of this library for a field of the decoder: the same name, the
/// model of its value, the same unit text.
fn field_of(field: &fitparser::FitDataField) -> (out: Field)
    ensures
        stands_for_field(out, *field),
{
    Field {
        name: field_name(field).to_owned(),
        value: value_of(field_value(field)),
        units: field_units(field).to_owned(),
    }
}

/// The record of this library for a record of the decoder: the same kind,
/// and every field that the decoder hands out, in its order.
fn record_of(record: &fitparser::FitDataRecord) -> (out: Record)
    ensures
        stands_for_record(out, *record),
{
    let decoded = record_fields(record);
    let mut fields: Vec<Field> = Vec::new();
    let mut i: usize = 0;
    while i < decoded.len()
        invariant
            i <= decoded.len(),
            decoded@ == decoded_fields(*record),
            fields@.len() == i,
            forall|j: int| 0 <= j < i ==> stands_for_field(#[trigger] fields@[j], decoded@[j]),
        decreases decoded.len() - i,
    {
        fields.push(field_of(&decoded[i]));
        i += 1;
    }
    Record { kind: record_kind(record), fields }
}

/// The records of this library for the records that the decoder returned:
/// as many, in the same order, each standing for the one at its place.
pub fn records_of(decoded: &Vec<fitparser::FitDataRecord>) -> (records: Vec<Record>)
    ensures
        records@.len() == decoded@.len(),
        forall|i: int|
            0 <= i < records@.len() ==> stands_for_record(#[trigger] records@[i], decoded@[i]),
{
    let mut records: Vec<Record> = Vec::new();
    let mut i: usize = 0;
    while i < decoded.len()
        invariant
            i <= decoded.len(),
            records@.len() == i,
            forall|j: int| 0 <= j < i ==> stands_for_record(#[trigger] records@[j], decoded@[j]),
        decreases decoded.len() - i,
    {
        records.push(record_of(&decoded[i]));
        i += 1;
    }
    records
}

/// Tells whether `out` is what this library makes of a result of the
/// decoder: the records that stand for the decoded ones, as many and in the
/// same order, where it succeeded, and an error where it failed.
pub open spec fn stands_for_outcome(
    out: Result<Vec<Record>, String>,
    decoded: Result<Vec<fitparser::FitDataRecord>, Box<fitparser::ErrorKind>>,
) -> bool {
    match decoded {
        Ok(messages) => {
            &&& out is Ok
            &&& out->Ok_0@.len() == messages@.len()
            &&& forall|i: int|
                0 <= i < messages@.len() ==> stands_for_record(
                    #[trigger] out->Ok_0@[i],
                    messages@[i],
                )
        },
        Err(_) => out is Err,
    }
}

/// What this library makes of a result of the decoder: its records on
/// success, the text of its error on failure.
pub fn outcome_of(
    decoded: Result<Vec<fitparser::FitDataRecord>, Box<fitparser::ErrorKind>>,
) -> (out: Result<Vec<Record>, String>)
    ensures
        stands_for_outcome(out, decoded),
{
    match decoded {
        Ok(messages) => Ok(records_of(&messages)),
        Err(error) => Err(error_text(&error)),
    }
}

/// What a field of the decoder becomes: its name, the canonical text of
/// the model of its value, and its unit text where that is not empty.
pub open spec fn converted_field(field: fitparser::FitDataField) -> DataFieldView {
    DataFieldView {
        name: decoded_name(field),
        value: value_model(decoded_value(field)).rendering(),
        units: if decoded_units(field).len() == 0 {
            None
        } else {
            Some(decoded_units(field))
        },
    }
}

/// What a record of the decoder becomes: its kind, and each of its fields
/// converted, in the decoder's order.
pub open spec fn converted_message(record: fitparser::FitDataRecord) -> DataRecordView {
    DataRecordView {
        kind: decoded_kind(record),
        fields: decoded_fields(record).map_values(|f: fitparser::FitDataField| converted_field(f)),
    }
}

/// What the records of the decoder become, in the decoder's order.
pub open spec fn converted_messages(messages: Seq<fitparser::FitDataRecord>) -> Seq<
    DataRecordView,
> {
    messages.map_values(|m: fitparser::FitDataRecord| converted_message(m))
}

/// A record that stands for a record of the decoder converts to what that
/// record becomes.
pub proof fn lemma_standing_record_converts_alike(out: Record, record: fitparser::FitDataRecord)
    requires
        stands_for_record(out, record),
    ensures
        out.converted() == converted_message(record),
{
    let left = out.converted().fields;
    let right = converted_message(record).fields;
    assert forall|j: int| 0 <= j < left.len() implies left[j] == right[j] by {
        assert(stands_for_field(out.fields@[j], decoded_fields(record)[j]));
        lemma_same_value_renders_alike(
            out.fields@[j].value,
            value_model(decoded_value(decoded_fields(record)[j])),
        );
    }
    assert(left =~= right);
}

/// Records that stand for the records of the decoder, one for one, convert
/// to what those records become.
pub proof fn lemma_standing_records_convert_alike(
    records: Seq<Record>,
    messages: Seq<fitparser::FitDataRecord>,
)
    requires
        records.len() == messages.len(),
        forall|i: int| 0 <= i < records.len() ==> stands_for_record(#[trigger] records[i], messages[i]),
    ensures
        converted_records(records) == converted_messages(messages),
{
    assert forall|i: int| 0 <= i < records.len() implies (#[trigger] converted_records(records)[i])
        == converted_messages(messages)[i] by {
        lemma_standing_record_converts_alike(records[i], messages[i]);
    }
    assert(converted_records(records) =~= converted_messages(messages));
}

/// Converting the decoder's records keeps the structure: as many records,
/// in the decoder's order, each with its kind and with as many fields as it
/// held, in the decoder's order, each with its name.
pub proof fn lemma_messages_keep_structure(messages: Seq<fitparser::FitDataRecord>)
    ensures
        converted_messages(messages).len() == messages.len(),
        forall|i: int|
            0 <= i < messages.len() ==> {
                &&& (#[trigger] converted_messages(messages)[i]).kind == decoded_kind(messages[i])
                &&& converted_messages(messages)[i].fields.len() == decoded_fields(
                    messages[i],
                ).len()
            },
        forall|i: int, j: int|
            0 <= i < messages.len() && 0 <= j < decoded_fields(messages[i]).len() ==> (
            #[trigger] converted_messages(messages)[i].fields[j]) == converted_field(
                decoded_fields(messages[i])[j],
            ),
{
}

/// No field that a record of the decoder becomes has a unit text that is
/// present and empty.
pub proof fn lemma_converted_units_are_never_empty(field: fitparser::FitDataField)
    ensures
        converted_field(field).units != Some(Seq::<char>::empty()),
{
}

} // verus!
