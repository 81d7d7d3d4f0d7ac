//! ASCII decimal payloads.
//!
//! Report payloads go over the wire as the plain decimal digits of the
//! distance, so they stay human-readable on the broker.  Control
//! payloads come back the same way: the decimal number of seconds to
//! sleep.  Both directions live here: a formatter from a number to its
//! digits and a parser from bytes back to the number, with the parser
//! accepting exactly what Rust's unsigned decimal syntax accepts — an
//! optional leading plus sign, then one or more digits, within range.

use vstd::prelude::*;

verus! {

/// The ASCII digit for a value below ten.
pub open spec fn ascii_digit(value: nat) -> u8 {
    (48 + value) as u8
}

/// Whether a byte is an ASCII decimal digit.
pub open spec fn is_ascii_digit(byte: u8) -> bool {
    48 <= byte <= 57
}

/// The decimal digits of `n`, most significant first, with no sign and
/// no leading zeros (zero itself is the single digit `0`).
pub open spec fn decimal_digits(n: nat) -> Seq<u8>
    decreases n,
{
    if n < 10 {
        seq![ascii_digit(n)]
    } else {
        decimal_digits(n / 10).push(ascii_digit(n % 10))
    }
}

/// The number the digit bytes stand for, most significant first.
pub open spec fn decimal_value(digits: Seq<u8>) -> nat
    decreases digits.len(),
{
    if digits.len() == 0 {
        0
    } else {
        decimal_value(digits.drop_last()) * 10 + (if digits.last() >= 48 {
            (digits.last() - 48) as nat
        } else {
            0
        })
    }
}

/// The digit part of an unsigned decimal literal: everything after an
/// optional leading plus sign.
pub open spec fn digits_part(bytes: Seq<u8>) -> Seq<u8> {
    if bytes.len() > 0 && bytes[0] == 43 {
        bytes.drop_first()
    } else {
        bytes
    }
}

/// Whether the bytes are a well-formed unsigned 64-bit decimal: an
/// optional leading plus sign, then at least one digit and nothing
/// else, standing for a value that fits in a `u64`.
pub open spec fn parses_as_u64(bytes: Seq<u8>) -> bool {
    let digits = digits_part(bytes);
    &&& digits.len() > 0
    &&& forall|i: int| 0 <= i < digits.len() ==> is_ascii_digit(#[trigger] digits[i])
    &&& decimal_value(digits) <= u64::MAX
}

/// Formats a number as its ASCII decimal digits.
pub fn format_u64_decimal(n: u64) -> (bytes: Vec<u8>)
    ensures
        bytes@ == decimal_digits(n as nat),
{
    let mut reversed: Vec<u8> = Vec::new();
    if n == 0 {
        reversed.push(48);
        proof {
            assert(reversed@ =~= decimal_digits(0));
        }
        return reversed;
    }
    let mut remaining: u64 = n;
    proof {
        assert(decimal_digits(n as nat) =~= decimal_digits(remaining as nat)
            + reversed@.reverse());
    }
    while remaining > 0
        invariant
            remaining > 0 ==> decimal_digits(n as nat) == decimal_digits(remaining as nat)
                + reversed@.reverse(),
            remaining == 0 ==> reversed.len() > 0 && decimal_digits(n as nat)
                == reversed@.reverse(),
        decreases remaining,
    {
        let ghost old_reversed = reversed@;
        let ghost old_remaining = remaining as nat;
        let digit: u8 = (remaining % 10) as u8 + 48;
        reversed.push(digit);
        remaining = remaining / 10;
        proof {
            lemma_reverse_push(old_reversed, digit);
            if old_remaining < 10 {
                assert(decimal_digits(old_remaining) =~= seq![digit]);
                assert(decimal_digits(n as nat) =~= seq![digit] + old_reversed.reverse());
            } else {
                assert(decimal_digits(old_remaining) =~= decimal_digits(old_remaining / 10)
                    + seq![digit]);
                assert(decimal_digits(n as nat) =~= decimal_digits(old_remaining / 10) + (seq![
                    digit,
                ] + old_reversed.reverse()));
            }
        }
    }
    let mut bytes: Vec<u8> = Vec::new();
    let mut i: usize = reversed.len();
    while i > 0
        invariant
            i <= reversed.len(),
            bytes.len() == reversed.len() - i,
            forall|j: int| 0 <= j < bytes.len() ==> bytes@[j] == reversed@[reversed.len() - 1 - j],
        decreases i,
    {
        i = i - 1;
        let byte = reversed[i];
        bytes.push(byte);
    }
    proof {
        assert(bytes@ =~= reversed@.reverse());
    }
    bytes
}

/// Reversing after appending puts the new element in front.
proof fn lemma_reverse_push(s: Seq<u8>, x: u8)
    ensures
        s.push(x).reverse() =~= seq![x] + s.reverse(),
{
}

/// Parses an unsigned 64-bit decimal, accepting exactly an optional
/// leading plus sign followed by one or more digits whose value fits.
pub fn parse_u64_decimal(bytes: &[u8]) -> (parsed: Option<u64>)
    ensures
        parsed is Some <==> parses_as_u64(bytes@),
        parsed is Some ==> parsed->0 == decimal_value(digits_part(bytes@)),
{
    let ghost digits = digits_part(bytes@);
    let start: usize = if bytes.len() > 0 && bytes[0] == 43 {
        1
    } else {
        0
    };
    proof {
        assert(digits =~= bytes@.skip(start as int));
        assert forall|k: int| 0 <= k < digits.len() implies #[trigger] digits[k] == bytes@[k
            + start] by {}
    }
    if bytes.len() == start {
        return None;
    }
    let mut value: u64 = 0;
    let mut i: usize = start;
    while i < bytes.len()
        invariant
            start <= i <= bytes.len(),
            start <= 1,
            digits == digits_part(bytes@),
            digits == bytes@.skip(start as int),
            forall|k: int| 0 <= k < digits.len() ==> #[trigger] digits[k] == bytes@[k + start],
            forall|j: int| start <= j < i ==> is_ascii_digit(#[trigger] bytes@[j]),
            value == decimal_value(bytes@.subrange(start as int, i as int)),
        decreases bytes.len() - i,
    {
        let byte = bytes[i];
        if byte < 48 || byte > 57 {
            proof {
                assert(digits[i - start] == bytes@[i as int]);
                assert(!is_ascii_digit(digits[i - start]));
            }
            return None;
        }
        let digit: u64 = (byte - 48) as u64;
        let wide: u128 = (value as u128) * 10 + (digit as u128);
        proof {
            assert(bytes@.subrange(start as int, i + 1).drop_last() =~= bytes@.subrange(
                start as int,
                i as int,
            ));
            assert(bytes@.subrange(start as int, i + 1).last() == bytes@[i as int]);
            assert(decimal_value(bytes@.subrange(start as int, i + 1)) == decimal_value(
                bytes@.subrange(start as int, i as int),
            ) * 10 + digit);
        }
        if wide > 0xffff_ffff_ffff_ffff {
            proof {
                lemma_decimal_value_prefix_grows(bytes@, start as int, i + 1, bytes@.len() as int);
                assert(bytes@.subrange(start as int, bytes@.len() as int) =~= digits);
                assert(decimal_value(digits) > u64::MAX);
            }
            return None;
        }
        value = wide as u64;
        i = i + 1;
    }
    proof {
        assert(bytes@.subrange(start as int, bytes@.len() as int) =~= digits);
        assert(digits.len() > 0);
        assert forall|k: int| 0 <= k < digits.len() implies is_ascii_digit(
            #[trigger] digits[k],
        ) by {
            assert(is_ascii_digit(bytes@[k + start]));
        }
        assert(parses_as_u64(bytes@));
    }
    Some(value)
}

/// A decimal value never shrinks as more digits are appended, so a
/// prefix already over the 64-bit range condemns the whole literal.
proof fn lemma_decimal_value_prefix_grows(bytes: Seq<u8>, start: int, mid: int, end: int)
    requires
        0 <= start <= mid <= end <= bytes.len(),
    ensures
        decimal_value(bytes.subrange(start, end)) >= decimal_value(bytes.subrange(start, mid)),
    decreases end - mid,
{
    if mid < end {
        lemma_decimal_value_prefix_grows(bytes, start, mid + 1, end);
        assert(bytes.subrange(start, mid + 1).drop_last() =~= bytes.subrange(start, mid));
        assert(decimal_value(bytes.subrange(start, mid + 1)) >= decimal_value(
            bytes.subrange(start, mid),
        ));
    }
}

/// Every byte the formatter emits is a decimal digit, and the first is
/// never a sign.
pub proof fn lemma_decimal_digits_are_digits(n: nat)
    ensures
        decimal_digits(n).len() > 0,
        forall|i: int| 0 <= i < decimal_digits(n).len() ==> is_ascii_digit(#[trigger] decimal_digits(n)[i]),
    decreases n,
{
    if n >= 10 {
        lemma_decimal_digits_are_digits(n / 10);
    }
}

/// Round trip: the digits the formatter produces for any 64-bit value
/// parse back to exactly that value.
pub proof fn lemma_decimal_round_trip(n: u64)
    ensures
        parses_as_u64(decimal_digits(n as nat)),
        decimal_value(digits_part(decimal_digits(n as nat))) == n,
{
    lemma_decimal_digits_are_digits(n as nat);
    lemma_decimal_value_of_digits(n as nat);
    assert(digits_part(decimal_digits(n as nat)) =~= decimal_digits(n as nat));
}

/// The decimal value of a number's own digits is the number.
proof fn lemma_decimal_value_of_digits(n: nat)
    ensures
        decimal_value(decimal_digits(n)) == n,
    decreases n,
{
    if n < 10 {
        assert(decimal_digits(n).drop_last() =~= Seq::<u8>::empty());
        assert(decimal_value(Seq::<u8>::empty()) == 0);
    } else {
        lemma_decimal_value_of_digits(n / 10);
        assert(decimal_digits(n).drop_last() =~= decimal_digits(n / 10));
    }
}

} // verus!
