//! The typed value of one decoded field and its canonical text.

use crate::text::{
    decimal, joined, lemma_decimal_reads_back, lemma_joined_push, lemma_signed_decimal_is_present,
    signed_decimal, signed_to_string, unsigned_to_string,
};
use vstd::prelude::*;

verus! {

/// The value of one field, as the decoder typed it.
///
/// Integers keep their width and signedness. A floating-point number is held
/// as its decimal text, the shortest that reads back as the same number, and a
/// timestamp as the text in which the decoder identifies the instant: both are
/// already in their final form when they arrive here.
#[derive(Debug, PartialEq, Eq)]
pub enum FieldValue {
    /// A timestamp, as the text that identifies its instant.
    Timestamp(String),
    /// One raw byte.
    Byte(u8),
    /// The numeric code of an enumerated field.
    Enum(u8),
    /// Signed 8-bit integer.
    SInt8(i8),
    /// Unsigned 8-bit integer.
    UInt8(u8),
    /// Signed 16-bit integer.
    SInt16(i16),
    /// Unsigned 16-bit integer.
    UInt16(u16),
    /// Signed 32-bit integer.
    SInt32(i32),
    /// Unsigned 32-bit integer.
    UInt32(u32),
    /// Text.
    String(String),
    /// 32-bit floating-point number, as its decimal text.
    Float32(String),
    /// 64-bit floating-point number, as its decimal text.
    Float64(String),
    /// Unsigned 8-bit integer whose invalid marker is zero.
    UInt8z(u8),
    /// Unsigned 16-bit integer whose invalid marker is zero.
    UInt16z(u16),
    /// Unsigned 32-bit integer whose invalid marker is zero.
    UInt32z(u32),
    /// Signed 64-bit integer.
    SInt64(i64),
    /// Unsigned 64-bit integer.
    UInt64(u64),
    /// Unsigned 64-bit integer whose invalid marker is zero.
    UInt64z(u64),
    /// An ordered sequence of values, which may themselves be sequences.
    Array(Vec<FieldValue>),
    /// Missing or corrupt data.
    Invalid,
}

/// The text of the invalid marker.
pub open spec fn invalid_text() -> Seq<char> {
    seq!['i', 'n', 'v', 'a', 'l', 'i', 'd']
}

/// The separator between the elements of a rendered sequence.
pub open spec fn element_separator() -> Seq<char> {
    seq![',', ' ']
}

/// The canonical text of each of `items`, in order.
pub open spec fn renderings(items: Seq<FieldValue>) -> Seq<Seq<char>>
    decreases items, 0nat,
{
    Seq::new(
        items.len(),
        |i: int|
            if 0 <= i < items.len() {
                items[i].rendering()
            } else {
                Seq::empty()
            },
    )
}

impl FieldValue {
    /// The canonical text of a value.
    ///
    /// Every integer is its base-10 text. The text of a string, of a
    /// floating-point number and of a timestamp is taken as it is. A sequence
    /// is its elements' texts between square brackets, separated by a comma
    /// and a space. The invalid marker is the word `invalid`.
    pub open spec fn rendering(self) -> Seq<char>
        decreases self, 1nat,
    {
        match self {
            FieldValue::Timestamp(text) => text@,
            FieldValue::Byte(v) => decimal(v as nat),
            FieldValue::Enum(v) => decimal(v as nat),
            FieldValue::SInt8(v) => signed_decimal(v as int),
            FieldValue::UInt8(v) => decimal(v as nat),
            FieldValue::SInt16(v) => signed_decimal(v as int),
            FieldValue::UInt16(v) => decimal(v as nat),
            FieldValue::SInt32(v) => signed_decimal(v as int),
            FieldValue::UInt32(v) => decimal(v as nat),
            FieldValue::String(text) => text@,
            FieldValue::Float32(text) => text@,
            FieldValue::Float64(text) => text@,
            FieldValue::UInt8z(v) => decimal(v as nat),
            FieldValue::UInt16z(v) => decimal(v as nat),
            FieldValue::UInt32z(v) => decimal(v as nat),
            FieldValue::SInt64(v) => signed_decimal(v as int),
            FieldValue::UInt64(v) => decimal(v as nat),
            FieldValue::UInt64z(v) => decimal(v as nat),
            FieldValue::Array(items) => seq!['['] + joined(renderings(items@), element_separator())
                + seq![']'],
            FieldValue::Invalid => invalid_text(),
        }
    }
}

/// The texts of the first `n + 1` items are those of the first `n`, followed
/// by the text of the item at `n`.
proof fn lemma_renderings_take(items: Seq<FieldValue>, n: int)
    requires
        0 <= n < items.len(),
    ensures
        renderings(items.take(n + 1)) == renderings(items.take(n)).push(items[n].rendering()),
{
    assert(renderings(items.take(n + 1)) =~= renderings(items.take(n)).push(
        items[n].rendering(),
    ));
}

/// Tells whether the text held for a floating-point number or a timestamp
/// is present. It is so for every value that comes from a number or an
/// instant; the type itself also admits an empty text.
pub open spec fn text_is_present(value: FieldValue) -> bool {
    match value {
        FieldValue::Float32(text) => text@.len() > 0,
        FieldValue::Float64(text) => text@.len() > 0,
        FieldValue::Timestamp(text) => text@.len() > 0,
        _ => true,
    }
}

/// Every value has a canonical text, and where the text held for a number
/// or an instant is present, that text is empty for the empty string and
/// for nothing else.
pub proof fn lemma_only_the_empty_string_renders_empty(value: FieldValue)
    requires
        text_is_present(value),
    ensures
        value.rendering().len() == 0 <==> (value matches FieldValue::String(text) && text@.len()
            == 0),
{
    match value {
        FieldValue::Byte(v) => lemma_decimal_reads_back(v as nat),
        FieldValue::Enum(v) => lemma_decimal_reads_back(v as nat),
        FieldValue::UInt8(v) => lemma_decimal_reads_back(v as nat),
        FieldValue::UInt8z(v) => lemma_decimal_reads_back(v as nat),
        FieldValue::UInt16(v) => lemma_decimal_reads_back(v as nat),
        FieldValue::UInt16z(v) => lemma_decimal_reads_back(v as nat),
        FieldValue::UInt32(v) => lemma_decimal_reads_back(v as nat),
        FieldValue::UInt32z(v) => lemma_decimal_reads_back(v as nat),
        FieldValue::UInt64(v) => lemma_decimal_reads_back(v as nat),
        FieldValue::UInt64z(v) => lemma_decimal_reads_back(v as nat),
        FieldValue::SInt8(v) => lemma_signed_decimal_is_present(v as int),
        FieldValue::SInt16(v) => lemma_signed_decimal_is_present(v as int),
        FieldValue::SInt32(v) => lemma_signed_decimal_is_present(v as int),
        FieldValue::SInt64(v) => lemma_signed_decimal_is_present(v as int),
        _ => {},
    }
}

/// The invalid marker renders as the word `invalid`, whatever surrounds it.
pub proof fn lemma_invalid_rendering()
    ensures
        FieldValue::Invalid.rendering() == "invalid"@,
{
    reveal_strlit("invalid");
    assert(FieldValue::Invalid.rendering() =~= "invalid"@);
}

/// A sequence renders between square brackets: an empty one as `[]`, one
/// that holds a single value as that value's text between the brackets.
pub proof fn lemma_short_sequence_rendering(value: FieldValue)
    requires
        value is Array,
        value->Array_0@.len() <= 1,
    ensures
        value->Array_0@.len() == 0 ==> value.rendering() == seq!['[', ']'],
        value->Array_0@.len() == 1 ==> value.rendering() == seq!['['] + value->Array_0@[0].rendering()
            + seq![']'],
{
    let items = value->Array_0@;
    if items.len() == 0 {
        assert(joined(renderings(items), element_separator()) =~= Seq::<char>::empty());
        assert(value.rendering() =~= seq!['[', ']']);
    } else {
        assert(joined(renderings(items), element_separator()) == items[0].rendering());
    }
}

/// Returns the canonical text of `value`. Every value has one: there is no
/// input on which this fails.
pub fn value_to_string(value: &FieldValue) -> (text: String)
    ensures
        text@ == value.rendering(),
    decreases value,
{
    match value {
        FieldValue::Timestamp(v) => v.clone(),
        FieldValue::Byte(v) => unsigned_to_string(*v as u64),
        FieldValue::Enum(v) => unsigned_to_string(*v as u64),
        FieldValue::SInt8(v) => signed_to_string(*v as i64),
        FieldValue::UInt8(v) => unsigned_to_string(*v as u64),
        FieldValue::SInt16(v) => signed_to_string(*v as i64),
        FieldValue::UInt16(v) => unsigned_to_string(*v as u64),
        FieldValue::SInt32(v) => signed_to_string(*v as i64),
        FieldValue::UInt32(v) => unsigned_to_string(*v as u64),
        FieldValue::String(v) => v.clone(),
        FieldValue::Float32(v) => v.clone(),
        FieldValue::Float64(v) => v.clone(),
        FieldValue::UInt8z(v) => unsigned_to_string(*v as u64),
        FieldValue::UInt16z(v) => unsigned_to_string(*v as u64),
        FieldValue::UInt32z(v) => unsigned_to_string(*v as u64),
        FieldValue::SInt64(v) => signed_to_string(*v),
        FieldValue::UInt64(v) => unsigned_to_string(*v),
        FieldValue::UInt64z(v) => unsigned_to_string(*v),
        FieldValue::Array(values) => {
            proof {
                reveal_strlit("[");
                reveal_strlit(", ");
                reveal_strlit("]");
            }
            let mut out = String::from_str("[");
            let mut i: usize = 0;
            while i < values.len()
                invariant
                    i <= values.len(),
                    *value == FieldValue::Array(*values),
                    ", "@ == element_separator(),
                    out@ == seq!['['] + joined(
                        renderings(values@.take(i as int)),
                        element_separator(),
                    ),
                decreases values.len() - i,
            {
                if i > 0 {
                    out.append(", ");
                }
                // The element lies inside `value`, so the descent ends.
                assert(decreases_to!(*value => value->Array_0));
                let item = value_to_string(&values[i]);
                out.append(item.as_str());
                proof {
                    lemma_renderings_take(values@, i as int);
                    lemma_joined_push(
                        renderings(values@.take(i as int)),
                        element_separator(),
                        values@[i as int].rendering(),
                    );
                    assert(out@ =~= seq!['['] + joined(
                        renderings(values@.take(i as int + 1)),
                        element_separator(),
                    ));
                }
                i += 1;
            }
            out.append("]");
            proof {
                assert(values@.take(values@.len() as int) =~= values@);
                assert(out@ =~= value.rendering());
            }
            out
        },
        FieldValue::Invalid => {
            proof {
                reveal_strlit("invalid");
            }
            let text = String::from_str("invalid");
            assert(text@ =~= invalid_text());
            text
        },
    }
}

} // verus!
