//! Identifiers as big-endian bytes, and bytes as lowercase hexadecimal text.

use vstd::prelude::*;

verus! {

/// The lowercase hexadecimal digit for a value below sixteen.
pub open spec fn hex_digit(nibble: int) -> char {
    seq!['0', '1', '2', '3', '4', '5', '6', '7', '8', '9', 'a', 'b', 'c', 'd', 'e', 'f'][nibble]
}

/// Two lowercase hexadecimal digits for each byte, the high half first.
pub open spec fn hex_text(bytes: Seq<u8>) -> Seq<char> {
    Seq::new(
        2 * bytes.len(),
        |i: int|
            if i % 2 == 0 {
                hex_digit(bytes[i / 2] as int / 16)
            } else {
                hex_digit(bytes[i / 2] as int % 16)
            },
    )
}

/// The `width` low-order bytes of `value`, most significant first.
pub open spec fn be_bytes(value: nat, width: nat) -> Seq<u8>
    decreases width,
{
    if width == 0 {
        Seq::empty()
    } else {
        be_bytes(value / 256, (width - 1) as nat).push((value % 256) as u8)
    }
}

/// The text of a 128-bit identifier: thirty-two hexadecimal digits.
pub open spec fn hex_of_u128(id: u128) -> Seq<char> {
    hex_text(be_bytes(id as nat, 16))
}

/// The text of a 64-bit identifier: sixteen hexadecimal digits.
pub open spec fn hex_of_u64(id: u64) -> Seq<char> {
    hex_text(be_bytes(id as nat, 8))
}

/// `be_bytes` yields exactly `width` bytes.
pub proof fn be_bytes_len(value: nat, width: nat)
    ensures
        be_bytes(value, width).len() == width,
    decreases width,
{
    if width > 0 {
        be_bytes_len(value / 256, (width - 1) as nat);
    }
}

/// Calls `hex::encode`, which writes every byte as two digits taken from
/// the table `0123456789abcdef`, the high half of the byte first.
#[verifier::external_body]
pub(crate) fn hex_encode(bytes: &[u8]) -> (text: String)
    ensures
        text@ == hex_text(bytes@),
{
    hex::encode(bytes)
}

/// The sixteen bytes of `id`, most significant first.
pub fn u128_to_be_bytes(id: u128) -> (bytes: Vec<u8>)
    ensures
        bytes@ == be_bytes(id as nat, 16),
{
    let mut bytes: Vec<u8> = Vec::new();
    let mut rest: u128 = id;
    let mut i: usize = 0;
    while i < 16
        invariant
            i <= 16,
            bytes@.len() == i,
            be_bytes(id as nat, 16) == be_bytes(rest as nat, (16 - i) as nat) + bytes@,
        decreases 16 - i,
    {
        let low: u8 = (rest % 256) as u8;
        proof {
            let before = bytes@;
            let upper = be_bytes((rest / 256) as nat, (15 - i) as nat);
            assert(be_bytes(rest as nat, (16 - i) as nat) == upper.push(low));
            assert(upper.push(low) + before == upper + before.insert(0, low));
        }
        bytes.insert(0, low);
        rest = rest / 256;
        i = i + 1;
    }
    assert(be_bytes(rest as nat, 0) + bytes@ == bytes@);
    bytes
}

/// The eight bytes of `id`, most significant first.
pub fn u64_to_be_bytes(id: u64) -> (bytes: Vec<u8>)
    ensures
        bytes@ == be_bytes(id as nat, 8),
{
    let mut bytes: Vec<u8> = Vec::new();
    let mut rest: u64 = id;
    let mut i: usize = 0;
    while i < 8
        invariant
            i <= 8,
            bytes@.len() == i,
            be_bytes(id as nat, 8) == be_bytes(rest as nat, (8 - i) as nat) + bytes@,
        decreases 8 - i,
    {
        let low: u8 = (rest % 256) as u8;
        proof {
            let before = bytes@;
            let upper = be_bytes((rest / 256) as nat, (7 - i) as nat);
            assert(be_bytes(rest as nat, (8 - i) as nat) == upper.push(low));
            assert(upper.push(low) + before == upper + before.insert(0, low));
        }
        bytes.insert(0, low);
        rest = rest / 256;
        i = i + 1;
    }
    assert(be_bytes(rest as nat, 0) + bytes@ == bytes@);
    bytes
}

/// A 128-bit identifier as thirty-two lowercase hexadecimal digits.
pub fn encode_u128(id: u128) -> (text: String)
    ensures
        text@ == hex_of_u128(id),
{
    let bytes = u128_to_be_bytes(id);
    hex_encode(bytes.as_slice())
}

/// A 64-bit identifier as sixteen lowercase hexadecimal digits.
pub fn encode_u64(id: u64) -> (text: String)
    ensures
        text@ == hex_of_u64(id),
{
    let bytes = u64_to_be_bytes(id);
    hex_encode(bytes.as_slice())
}

/// The digit for a value below sixteen is one of `0` to `9` and `a` to `f`.
pub open spec fn is_lower_hex(c: char) -> bool {
    ('0' <= c && c <= '9') || ('a' <= c && c <= 'f')
}

/// Bytes come out as twice as many characters, each of them a lowercase
/// hexadecimal digit.
pub proof fn hex_text_is_lowercase(bytes: Seq<u8>)
    ensures
        hex_text(bytes).len() == 2 * bytes.len(),
        forall|i: int| 0 <= i < hex_text(bytes).len() ==> is_lower_hex(#[trigger] hex_text(bytes)[i]),
{
    assert forall|i: int| 0 <= i < hex_text(bytes).len() implies is_lower_hex(
        #[trigger] hex_text(bytes)[i],
    ) by {
        let b = bytes[i / 2] as int;
        assert(0 <= b / 16 < 16 && 0 <= b % 16 < 16);
        assert forall|n: int| 0 <= n < 16 implies is_lower_hex(#[trigger] hex_digit(n)) by {
            assert(n == 0 || n == 1 || n == 2 || n == 3 || n == 4 || n == 5 || n == 6 || n == 7
                || n == 8 || n == 9 || n == 10 || n == 11 || n == 12 || n == 13 || n == 14 || n
                == 15);
        }
    }
}

/// An identifier comes out at its full width, with leading zeros where it
/// is small: thirty-two digits for 128 bits, sixteen for 64.
pub proof fn identifier_text_has_fixed_width(trace_id: u128, span_id: u64)
    ensures
        hex_of_u128(trace_id).len() == 32,
        hex_of_u64(span_id).len() == 16,
{
    be_bytes_len(trace_id as nat, 16);
    be_bytes_len(span_id as nat, 8);
}

} // verus!
