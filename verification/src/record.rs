//! Decoded records and the uniform, string-valued records made from them.

use crate::value::{value_to_string, FieldValue};
use vstd::prelude::*;

verus! {

/// One named, typed value of a decoded message.
#[derive(Debug, PartialEq, Eq)]
pub struct Field {
    /// The name the decoder gave the field; a record may hold a name twice.
    pub name: String,
    /// The typed value.
    pub value: FieldValue,
    /// The unit text the decoder supplied; empty where the field has none.
    pub units: String,
}

/// One decoded message: its kind and its fields, in the order in which the
/// decoder emitted them.
#[derive(Debug, PartialEq, Eq)]
pub struct Record {
    /// The label of the message type.
    pub kind: String,
    /// The fields, in emission order.
    pub fields: Vec<Field>,
}

/// One field as it leaves this library: every value is text.
#[derive(Clone, Debug, PartialEq, Eq)]
pub struct DataField {
    /// The field's name, unchanged.
    pub name: String,
    /// The canonical text of the field's value.
    pub value: String,
    /// The unit text; absent where the field has none, never empty.
    pub units: Option<String>,
}

/// One record as it leaves this library.
#[derive(Clone, Debug, PartialEq, Eq)]
pub struct DataRecord {
    /// The label of the message type, unchanged.
    pub kind: String,
    /// The fields, in the order of the decoded record.
    pub fields: Vec<DataField>,
}

/// What a [`DataField`] holds.
pub struct DataFieldView {
    pub name: Seq<char>,
    pub value: Seq<char>,
    pub units: Option<Seq<char>>,
}

/// What a [`DataRecord`] holds.
pub struct DataRecordView {
    pub kind: Seq<char>,
    pub fields: Seq<DataFieldView>,
}

impl View for DataField {
    type V = DataFieldView;

    open spec fn view(&self) -> DataFieldView {
        DataFieldView {
            name: self.name@,
            value: self.value@,
            units: match self.units {
                Some(text) => Some(text@),
                None => None,
            },
        }
    }
}

impl View for DataRecord {
    type V = DataRecordView;

    open spec fn view(&self) -> DataRecordView {
        DataRecordView { kind: self.kind@, fields: self.fields@.map_values(|f: DataField| f@) }
    }
}

/// What each of `records` holds, in order.
pub open spec fn record_views(records: Seq<DataRecord>) -> Seq<DataRecordView> {
    records.map_values(|r: DataRecord| r@)
}

impl Field {
    /// The field that this one becomes: the same name, the canonical text of
    /// the value, and the unit text where there is any.
    pub open spec fn converted(self) -> DataFieldView {
        DataFieldView {
            name: self.name@,
            value: self.value.rendering(),
            units: if self.units@.len() == 0 {
                None
            } else {
                Some(self.units@)
            },
        }
    }
}

impl Record {
    /// The record that this one becomes: the same kind, and each field
    /// converted, in the same order.
    pub open spec fn converted(self) -> DataRecordView {
        DataRecordView {
            kind: self.kind@,
            fields: self.fields@.map_values(|f: Field| f.converted()),
        }
    }
}

/// What each of `records` becomes, in order.
pub open spec fn converted_records(records: Seq<Record>) -> Seq<DataRecordView> {
    records.map_values(|r: Record| r.converted())
}

/// A converted field has no unit text exactly when the decoder supplied an
/// empty one, and never a unit text that is empty.
pub proof fn lemma_units_absent_or_nonempty(field: Field)
    ensures
        field.converted().units is None <==> field.units@.len() == 0,
        field.converted().units matches Some(text) ==> text == field.units@ && text.len() > 0,
{
}

/// Converting keeps the structure: as many records as were decoded, in the
/// same order, each with its kind and with as many fields as it had, in the
/// same order, each the conversion of the field at its place.
pub proof fn lemma_order_preserved(records: Seq<Record>)
    ensures
        converted_records(records).len() == records.len(),
        forall|i: int|
            0 <= i < records.len() ==> {
                &&& (#[trigger] converted_records(records)[i]).kind == records[i].kind@
                &&& converted_records(records)[i].fields.len() == records[i].fields@.len()
            },
        forall|i: int, j: int|
            0 <= i < records.len() && 0 <= j < records[i].fields@.len() ==> (
            #[trigger] converted_records(records)[i].fields[j]) == records[i].fields@[j].converted(),
{
}

/// No converted record holds a field whose unit text is present and empty.
pub proof fn lemma_no_empty_units(records: Seq<Record>, i: int, j: int)
    requires
        0 <= i < records.len(),
        0 <= j < records[i].fields@.len(),
    ensures
        converted_records(records)[i].fields[j].units != Some(Seq::<char>::empty()),
{
    lemma_units_absent_or_nonempty(records[i].fields@[j]);
}

/// Converts one decoded field.
pub fn convert_field(field: &Field) -> (out: DataField)
    ensures
        out@ == field.converted(),
{
    let units = if field.units.as_str().is_empty() {
        None
    } else {
        Some(field.units.clone())
    };
    DataField { name: field.name.clone(), value: value_to_string(&field.value), units }
}

/// Converts one decoded record. No field is dropped, reordered or merged
/// with another of the same name.
pub fn convert_record(record: &Record) -> (out: DataRecord)
    ensures
        out@ == record.converted(),
{
    let mut fields: Vec<DataField> = Vec::new();
    let mut i: usize = 0;
    while i < record.fields.len()
        invariant
            i <= record.fields.len(),
            fields@.len() == i,
            forall|j: int| 0 <= j < i ==> (#[trigger] fields@[j])@ == record.fields@[j].converted(),
        decreases record.fields.len() - i,
    {
        fields.push(convert_field(&record.fields[i]));
        i += 1;
    }
    let out = DataRecord { kind: record.kind.clone(), fields };
    assert(out@.fields =~= record.converted().fields);
    out
}

/// Converts every decoded record, in order.
pub fn convert_records(records: &Vec<Record>) -> (out: Vec<DataRecord>)
    ensures
        record_views(out@) == converted_records(records@),
{
    let mut out: Vec<DataRecord> = Vec::new();
    let mut i: usize = 0;
    while i < records.len()
        invariant
            i <= records.len(),
            out@.len() == i,
            forall|j: int| 0 <= j < i ==> (#[trigger] out@[j])@ == records@[j].converted(),
        decreases records.len() - i,
    {
        out.push(convert_record(&records[i]));
        i += 1;
    }
    assert(record_views(out@) =~= converted_records(records@));
    out
}

} // verus!
