//! Canonical text: base-10 rendering of integers and joining of parts.

use vstd::prelude::*;

verus! {

/// The character of one decimal digit; `d` is below ten.
pub open spec fn digit_char(d: nat) -> char {
    if d == 0 {
        '0'
    } else if d == 1 {
        '1'
    } else if d == 2 {
        '2'
    } else if d == 3 {
        '3'
    } else if d == 4 {
        '4'
    } else if d == 5 {
        '5'
    } else if d == 6 {
        '6'
    } else if d == 7 {
        '7'
    } else if d == 8 {
        '8'
    } else {
        '9'
    }
}

/// The base-10 text of a natural number: most significant digit first, no
/// leading zero, no separator.
pub open spec fn decimal(n: nat) -> Seq<char>
    decreases n,
{
    if n < 10 {
        seq![digit_char(n)]
    } else {
        decimal(n / 10).push(digit_char(n % 10))
    }
}

/// The base-10 text of an integer: a minus sign in front of the magnitude
/// when it is negative, the magnitude alone otherwise.
pub open spec fn signed_decimal(i: int) -> Seq<char> {
    if i < 0 {
        seq!['-'] + decimal((-i) as nat)
    } else {
        decimal(i as nat)
    }
}

/// The parts in order, with `sep` between each two neighbours and none
/// before the first or after the last.
pub open spec fn joined(parts: Seq<Seq<char>>, sep: Seq<char>) -> Seq<char>
    decreases parts.len(),
{
    if parts.len() == 0 {
        Seq::empty()
    } else if parts.len() == 1 {
        parts[0]
    } else {
        joined(parts.drop_last(), sep) + sep + parts.last()
    }
}

/// Tells whether `c` is one of the ten decimal digits.
pub open spec fn is_digit(c: char) -> bool {
    exists|d: nat| d < 10 && c == #[trigger] digit_char(d)
}

/// The number that a text of decimal digits reads as, most significant
/// digit first. It is meant for texts that hold digits only.
pub open spec fn decimal_value(text: Seq<char>) -> nat
    decreases text.len(),
{
    if text.len() == 0 {
        0
    } else {
        decimal_value(text.drop_last()) * 10 + (choose|d: nat|
            d < 10 && text.last() == #[trigger] digit_char(d))
    }
}

/// The base-10 text of a number holds digits only, so neither a sign nor a
/// separator; it starts with a zero only for zero itself; and it reads back
/// as the number.
pub proof fn lemma_decimal_reads_back(n: nat)
    ensures
        decimal(n).len() >= 1,
        forall|i: int| 0 <= i < decimal(n).len() ==> is_digit(#[trigger] decimal(n)[i]),
        decimal(n)[0] == '0' <==> n == 0,
        decimal_value(decimal(n)) == n,
    decreases n,
{
    let text = decimal(n);
    let last = n % 10;
    assert(text.last() == digit_char(last));
    let read = choose|d: nat| d < 10 && text.last() == #[trigger] digit_char(d);
    assert(read == last);
    if n < 10 {
        assert(text.drop_last() =~= Seq::<char>::empty());
        assert(decimal_value(text.drop_last()) == 0);
    } else {
        lemma_decimal_reads_back(n / 10);
        assert(text.drop_last() =~= decimal(n / 10));
        assert(text[0] == decimal(n / 10)[0]);
        assert forall|i: int| 0 <= i < text.len() implies is_digit(#[trigger] text[i]) by {
            if i < text.len() - 1 {
                assert(text[i] == decimal(n / 10)[i]);
            }
        }
    }
}

/// The base-10 text of an integer starts with a minus sign exactly when the
/// integer is negative, and what follows the sign is the text of the
/// magnitude.
pub proof fn lemma_signed_decimal_sign(i: int)
    ensures
        signed_decimal(i)[0] == '-' <==> i < 0,
        i < 0 ==> signed_decimal(i).subrange(1, signed_decimal(i).len() as int) == decimal(
            (-i) as nat,
        ),
        i >= 0 ==> signed_decimal(i) == decimal(i as nat),
{
    if i < 0 {
        assert(signed_decimal(i).subrange(1, signed_decimal(i).len() as int) =~= decimal(
            (-i) as nat,
        ));
    } else {
        lemma_decimal_reads_back(i as nat);
        let first = decimal(i as nat)[0];
        assert(is_digit(first));
    }
}

/// The base-10 text of an integer holds at least one character.
pub proof fn lemma_signed_decimal_is_present(i: int)
    ensures
        signed_decimal(i).len() >= 1,
{
    if i >= 0 {
        lemma_decimal_reads_back(i as nat);
    }
}

/// Joining one part more: the separator goes in front of it, unless it is
/// the first.
pub proof fn lemma_joined_push(parts: Seq<Seq<char>>, sep: Seq<char>, part: Seq<char>)
    ensures
        joined(parts.push(part), sep) == if parts.len() == 0 {
            part
        } else {
            joined(parts, sep) + sep + part
        },
{
    let longer = parts.push(part);
    assert(longer.drop_last() =~= parts);
    assert(longer.last() == part);
    if parts.len() == 0 {
        assert(joined(parts, sep) =~= Seq::<char>::empty());
    }
}

/// The one-character text of a decimal digit.
fn digit_str(d: u8) -> (s: &'static str)
    requires
        d < 10,
    ensures
        s@ == seq![digit_char(d as nat)],
{
    proof {
        reveal_strlit("0");
        reveal_strlit("1");
        reveal_strlit("2");
        reveal_strlit("3");
        reveal_strlit("4");
        reveal_strlit("5");
        reveal_strlit("6");
        reveal_strlit("7");
        reveal_strlit("8");
        reveal_strlit("9");
    }
    let s = if d == 0 {
        "0"
    } else if d == 1 {
        "1"
    } else if d == 2 {
        "2"
    } else if d == 3 {
        "3"
    } else if d == 4 {
        "4"
    } else if d == 5 {
        "5"
    } else if d == 6 {
        "6"
    } else if d == 7 {
        "7"
    } else if d == 8 {
        "8"
    } else {
        "9"
    };
    assert(s@ =~= seq![digit_char(d as nat)]);
    s
}

/// Appends the base-10 text of `n` to `out`.
pub fn append_decimal(out: &mut String, n: u64)
    ensures
        final(out)@ == old(out)@ + decimal(n as nat),
    decreases n,
{
    if n >= 10 {
        append_decimal(out, n / 10);
    }
    out.append(digit_str((n % 10) as u8));
    assert(final(out)@ =~= old(out)@ + decimal(n as nat));
}

/// The base-10 text of an unsigned integer.
pub fn unsigned_to_string(n: u64) -> (text: String)
    ensures
        text@ == decimal(n as nat),
{
    let mut out = String::new();
    append_decimal(&mut out, n);
    assert(out@ =~= decimal(n as nat));
    out
}

/// The base-10 text of a signed integer, with a minus sign only when it is
/// negative.
pub fn signed_to_string(i: i64) -> (text: String)
    ensures
        text@ == signed_decimal(i as int),
{
    let mut out = String::new();
    if i < 0 {
        proof {
            reveal_strlit("-");
        }
        out.append("-");
        // The magnitude of the least i64 does not fit in an i64: step off it first.
        let magnitude: u64 = ((-(i + 1)) as u64) + 1;
        append_decimal(&mut out, magnitude);
        assert(out@ =~= signed_decimal(i as int));
    } else {
        append_decimal(&mut out, i as u64);
        assert(out@ =~= signed_decimal(i as int));
    }
    out
}

} // verus!
