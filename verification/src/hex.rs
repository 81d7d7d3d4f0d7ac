//! Hexadecimal formatting of the device's MAC address.
//!
//! The MAC address doubles as the broker client identity, so the six
//! hardware-address bytes are printed as colon-separated lowercase hex
//! pairs into a fixed-capacity string that fits on the embedded heap.

use vstd::prelude::*;
use vstd::string::StringSliceAdditionalSpecFns;

verus! {

/// The lowercase hexadecimal character for a value below sixteen.
pub open spec fn hex_char(value: nat) -> char {
    if value == 0 {
        '0'
    } else if value == 1 {
        '1'
    } else if value == 2 {
        '2'
    } else if value == 3 {
        '3'
    } else if value == 4 {
        '4'
    } else if value == 5 {
        '5'
    } else if value == 6 {
        '6'
    } else if value == 7 {
        '7'
    } else if value == 8 {
        '8'
    } else if value == 9 {
        '9'
    } else if value == 10 {
        'a'
    } else if value == 11 {
        'b'
    } else if value == 12 {
        'c'
    } else if value == 13 {
        'd'
    } else if value == 14 {
        'e'
    } else {
        'f'
    }
}

/// The ASCII code of the lowercase hexadecimal character for a value
/// below sixteen.
pub open spec fn hex_byte(value: nat) -> u8 {
    if value < 10 {
        (48 + value) as u8
    } else {
        (87 + value) as u8
    }
}

/// The character and byte tables agree: each hex character's code point
/// is the corresponding ASCII code, below 128.
pub proof fn lemma_hex_char_byte(value: nat)
    requires
        value < 16,
    ensures
        hex_char(value) as u32 == hex_byte(value),
        hex_byte(value) < 128,
{
}

/// The two lowercase hexadecimal digits of a byte, high digit first.
pub fn u8_to_hex(num: u8) -> (digits: [char; 2])
    ensures
        digits@ == seq![hex_char((num / 16) as nat), hex_char((num % 16) as nat)],
{
    [hex_char_of(num / 16), hex_char_of(num % 16)]
}

/// Looks up the lowercase hexadecimal character of a value below
/// sixteen.
fn hex_char_of(value: u8) -> (digit: char)
    requires
        value < 16,
    ensures
        digit == hex_char(value as nat),
{
    let byte: u8 = hex_byte_of(value);
    proof {
        lemma_hex_char_byte(value as nat);
    }
    byte as char
}

/// Looks up the ASCII code of the lowercase hexadecimal character of a
/// value below sixteen.
fn hex_byte_of(value: u8) -> (byte: u8)
    requires
        value < 16,
    ensures
        byte == hex_byte(value as nat),
{
    if value < 10 {
        48 + value
    } else {
        87 + value
    }
}

#[verifier::external_type_specification]
#[verifier::external_body]
pub struct ExHeaplessString<const N: usize>(heapless::String<N>);

/// The bytes a fixed-capacity eighteen-byte string holds.
pub uninterp spec fn hstring_bytes(text: heapless::String<18>) -> Seq<u8>;

/// Relies on heapless::String::new: a fresh string is empty.
#[verifier::external_body]
fn hstring18_new() -> (text: heapless::String<18>)
    ensures
        hstring_bytes(text) == Seq::<u8>::empty(),
{
    heapless::String::new()
}

/// Relies on heapless::String::push: a one-byte character is appended
/// whenever its byte fits in the remaining capacity.
#[verifier::external_body]
fn hstring18_push(text: &mut heapless::String<18>, byte: u8)
    requires
        hstring_bytes(*old(text)).len() < 18,
        byte < 128,
    ensures
        hstring_bytes(*final(text)) == hstring_bytes(*old(text)).push(byte),
{
    let _ = text.push(byte as char);
}

/// Relies on heapless::String::as_str: the same bytes viewed as text.
#[verifier::external_body]
pub fn hstring18_as_str(text: &heapless::String<18>) -> (s: &str)
    ensures
        s.spec_bytes() == hstring_bytes(*text),
{
    text.as_str()
}

/// The colon-separated lowercase hex rendering of a six-byte hardware
/// address: seventeen bytes, a hex pair for each address byte.
pub open spec fn mac_str_bytes(mac: Seq<u8>) -> Seq<u8> {
    Seq::new(
        17,
        |j: int|
            if j % 3 == 0 {
                hex_byte((mac[j / 3] / 16) as nat)
            } else if j % 3 == 1 {
                hex_byte((mac[j / 3] % 16) as nat)
            } else {
                58
            },
    )
}

/// Renders a six-byte hardware address as colon-separated lowercase hex
/// pairs, the device's over-the-wire identity.
pub fn mac_addr_to_str(mac: [u8; 6]) -> (text: heapless::String<18>)
    ensures
        hstring_bytes(text) == mac_str_bytes(mac@),
{
    let mut text = hstring18_new();
    let mut i: usize = 0;
    proof {
        assert(hstring_bytes(text) =~= mac_str_bytes(mac@).take(0));
    }
    while i < 6
        invariant
            i <= 6,
            hstring_bytes(text) == mac_str_bytes(mac@).take(
                if i == 6 {
                    17int
                } else {
                    3 * i as int
                },
            ),
        decreases 6 - i,
    {
        let ghost taken = 3 * i as int;
        let byte = mac[i];
        proof {
            lemma_hex_char_byte((byte / 16) as nat);
            lemma_hex_char_byte((byte % 16) as nat);
        }
        hstring18_push(&mut text, hex_byte_of(byte / 16));
        proof {
            assert(hstring_bytes(text) =~= mac_str_bytes(mac@).take(taken + 1));
        }
        hstring18_push(&mut text, hex_byte_of(byte % 16));
        proof {
            assert(hstring_bytes(text) =~= mac_str_bytes(mac@).take(taken + 2));
        }
        if i < 5 {
            hstring18_push(&mut text, 58);
            proof {
                assert(hstring_bytes(text) =~= mac_str_bytes(mac@).take(taken + 3));
            }
        } else {
            proof {
                assert(hstring_bytes(text) =~= mac_str_bytes(mac@).take(17));
            }
        }
        i = i + 1;
    }
    text
}

} // verus!
