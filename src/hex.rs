//! Hex rendering of binary fields and parsing of 32-byte addresses.

use vstd::prelude::*;
use skar_format_fuel::Hex;
use vstd::string::StringSliceAdditionalSpecFns;
use vstd::utf8::encode_utf8;

verus! {

/// The sixteen lowercase hex digits, in order of value.
pub open spec fn hex_digits() -> Seq<char> {
    seq!['0', '1', '2', '3', '4', '5', '6', '7', '8', '9', 'a', 'b', 'c', 'd', 'e', 'f']
}

/// Two lowercase hex digits for one byte, high nibble first.
pub open spec fn byte_hex(b: u8) -> Seq<char> {
    seq![hex_digits()[(b / 16) as int], hex_digits()[(b % 16) as int]]
}

/// Two lowercase hex digits per byte, without a prefix.
pub open spec fn hex_body(b: Seq<u8>) -> Seq<char>
    decreases b.len(),
{
    if b.len() == 0 {
        Seq::empty()
    } else {
        byte_hex(b[0]) + hex_body(b.drop_first())
    }
}

/// The `0x`-prefixed lowercase rendering of a hash, an address or a blob.
pub open spec fn hex_of(b: Seq<u8>) -> Seq<char> {
    seq!['0', 'x'] + hex_body(b)
}

/// `s` without its leading `'0'` characters.
pub open spec fn strip_leading_zeros(s: Seq<char>) -> Seq<char>
    decreases s.len(),
{
    if s.len() > 0 && s[0] == '0' {
        strip_leading_zeros(s.drop_first())
    } else {
        s
    }
}

/// The rendering of a big-endian quantity: `0x` followed by its hex digits
/// without leading zeros, or `0x0` when every digit is zero.
pub open spec fn quantity_hex_of(b: Seq<u8>) -> Seq<char> {
    let digits = strip_leading_zeros(hex_body(b));
    if digits.len() == 0 {
        seq!['0', 'x', '0']
    } else {
        seq!['0', 'x'] + digits
    }
}

/// The value of an ASCII hex digit of either case.
pub open spec fn hex_value(c: u8) -> Option<u8> {
    if 48 <= c <= 57 {
        Some((c - 48) as u8)
    } else if 97 <= c <= 102 {
        Some((c - 87) as u8)
    } else if 65 <= c <= 70 {
        Some((c - 55) as u8)
    } else {
        None
    }
}

pub open spec fn is_hex_byte(c: u8) -> bool {
    hex_value(c).is_some()
}

pub open spec fn all_hex(s: Seq<u8>) -> bool {
    forall|i: int| 0 <= i < s.len() ==> #[trigger] is_hex_byte(s[i])
}

/// The bytes that a string of hex digit pairs stands for.
pub open spec fn decoded(s: Seq<u8>) -> Seq<u8> {
    Seq::new(
        s.len() / 2,
        |i: int| (hex_value(s[2 * i]).unwrap() * 16 + hex_value(s[2 * i + 1]).unwrap()) as u8,
    )
}

/// Relies on `skar_format_fuel::Data::encode_hex`: `0x` followed by
/// `faster_hex::hex_string` of the bytes, two lowercase digits per byte.
#[verifier::external_body]
pub(crate) fn encode_data_hex(b: &Vec<u8>) -> (r: String)
    ensures
        r@ == hex_of(b@),
{
    skar_format_fuel::Data::from(b.clone()).encode_hex()
}

/// Whether bytes are a quantity in its shortest form: at least one byte, and
/// no leading zero byte unless it is the only one.
pub open spec fn canonical_quantity(b: Seq<u8>) -> bool {
    b.len() > 0 && (b.len() == 1 || b[0] != 0)
}

/// Relies on `skar_format_fuel::Quantity::from` and `encode_hex`: `from`
/// asserts the shortest form, and `encode_hex` gives the lowercase digits of
/// the bytes with leading zeros cut, `0x0` when none is left.
#[verifier::external_body]
fn encode_canonical_quantity_hex(b: &Vec<u8>) -> (r: String)
    requires
        canonical_quantity(b@),
    ensures
        r@ == quantity_hex_of(b@),
{
    skar_format_fuel::Quantity::from(b.clone()).encode_hex()
}

proof fn lemma_quantity_zero_byte(rest: Seq<u8>)
    ensures
        quantity_hex_of(seq![0u8] + rest) == quantity_hex_of(rest),
{
    let b = seq![0u8] + rest;
    assert(b[0] == 0);
    assert(b.drop_first() =~= rest);
    assert(byte_hex(0) =~= seq!['0', '0']);
    let h = hex_body(b);
    assert(h == seq!['0', '0'] + hex_body(rest));
    let h1 = seq!['0'] + hex_body(rest);
    assert(h.drop_first() =~= h1);
    assert(h1.drop_first() =~= hex_body(rest));
    assert(h[0] == '0');
    assert(h1[0] == '0');
    assert(strip_leading_zeros(h) == strip_leading_zeros(h1));
    assert(strip_leading_zeros(h1) == strip_leading_zeros(hex_body(rest)));
}

/// Renders a quantity given as big-endian bytes: leading zero bytes do not
/// change its value, and no bytes at all stand for zero.
pub(crate) fn encode_quantity_hex(b: &Vec<u8>) -> (r: String)
    ensures
        r@ == quantity_hex_of(b@),
{
    let n = b.len();
    if n == 0 {
        let mut zero: Vec<u8> = Vec::new();
        zero.push(0u8);
        proof {
            lemma_quantity_zero_byte(Seq::empty());
            assert(zero@ =~= seq![0u8] + Seq::<u8>::empty());
            assert(b@ =~= Seq::<u8>::empty());
        }
        return encode_canonical_quantity_hex(&zero);
    }
    let mut i: usize = 0;
    assert(b@.subrange(0, n as int) =~= b@);
    while i + 1 < n && b[i] == 0
        invariant
            i < n,
            n == b@.len(),
            quantity_hex_of(b@.subrange(i as int, n as int)) == quantity_hex_of(b@),
        decreases n - i,
    {
        proof {
            let tail = b@.subrange(i + 1, n as int);
            assert(b@.subrange(i as int, n as int) =~= seq![0u8] + tail);
            lemma_quantity_zero_byte(tail);
        }
        i = i + 1;
    }
    let rest = vstd::slice::slice_to_vec(vstd::slice::slice_subrange(b.as_slice(), i, n));
    encode_canonical_quantity_hex(&rest)
}

/// The error of `faster_hex::hex_decode`, carried through as an opaque value.
#[verifier::external_type_specification]
#[verifier::external_body]
pub struct ExHexError(faster_hex::Error);

/// Relies on `faster_hex::hex_decode` into a 32-byte buffer: on 64 input
/// bytes it fails exactly when one of them is not a hex digit of either case,
/// and otherwise writes the value of each pair of digits.
#[verifier::external_body]
fn decode_hex_32(src: &[u8]) -> (r: Result<[u8; 32], faster_hex::Error>)
    requires
        src@.len() == 64,
    ensures
        r.is_ok() == all_hex(src@),
        r matches Ok(d) ==> d@ == decoded(src@),
{
    let mut dst = [0u8; 32];
    faster_hex::hex_decode(src, &mut dst).map(|()| dst)
}

/// The digits of an address: the text after a leading `0x`, if there is one.
pub open spec fn address_digits(s: Seq<u8>) -> Seq<u8> {
    if s.len() >= 2 && s[0] == 48 && s[1] == 120 {
        s.subrange(2, s.len() as int)
    } else {
        s
    }
}

/// Whether a text is an address: 64 hex digits after an optional `0x`.
pub open spec fn valid_address(s: Seq<char>) -> bool {
    let d = address_digits(encode_utf8(s));
    d.len() == 64 && all_hex(d)
}

/// The 32 bytes that a valid address text stands for.
pub open spec fn address_bytes(s: Seq<char>) -> Seq<u8> {
    decoded(address_digits(encode_utf8(s)))
}

fn address_from_digits(digits: &[u8]) -> (r: Result<[u8; 32], String>)
    ensures
        digits@.len() != 64 ==> (r matches Err(e) && e@ == "address must be 64 hex characters"@),
        digits@.len() == 64 && !all_hex(digits@) ==> (r matches Err(e) && e@
            == "Failed to decode hex string: Invalid character"@),
        r is Ok <==> digits@.len() == 64 && all_hex(digits@),
        r matches Ok(d) ==> d@ == decoded(digits@),
{
    if digits.len() != 64 {
        return Err(String::from_str("address must be 64 hex characters"));
    }
    match decode_hex_32(digits) {
        Ok(dst) => Ok(dst),
        Err(_) => Err(String::from_str("Failed to decode hex string: Invalid character")),
    }
}

/// Decodes 64 hex digits of either case into a 32-byte address.
pub fn hex_str_address_to_byte_array(hex_str: &str) -> (r: Result<[u8; 32], String>)
    ensures
        hex_str.spec_bytes().len() != 64 ==> (r matches Err(e) && e@
            == "address must be 64 hex characters"@),
        hex_str.spec_bytes().len() == 64 && !all_hex(hex_str.spec_bytes()) ==> (r matches Err(e)
            && e@ == "Failed to decode hex string: Invalid character"@),
        r is Ok <==> hex_str.spec_bytes().len() == 64 && all_hex(hex_str.spec_bytes()),
        r matches Ok(d) ==> d@ == decoded(hex_str.spec_bytes()),
{
    address_from_digits(hex_str.as_bytes())
}

/// Parses an address given as 64 hex digits, with or without a `0x` prefix.
pub fn parse_address(address: &str) -> (r: Result<[u8; 32], String>)
    ensures
        r is Ok <==> valid_address(address@),
        r matches Ok(d) ==> d@ == address_bytes(address@),
{
    let bytes = address.as_bytes();
    if bytes.len() >= 2 && bytes[0] == 48u8 && bytes[1] == 120u8 {
        let rest = vstd::slice::slice_subrange(bytes, 2, bytes.len());
        assert(rest@ == address_digits(address.spec_bytes()));
        address_from_digits(rest)
    } else {
        address_from_digits(bytes)
    }
}

/// Parses each address in turn; the first malformed one fails the whole list.
pub fn parse_addresses(addresses: &Vec<String>) -> (r: Result<Vec<[u8; 32]>, String>)
    ensures
        r is Ok <==> forall|i: int|
            0 <= i < addresses@.len() ==> #[trigger] valid_address(addresses@[i]@),
        r matches Ok(v) ==> v@.len() == addresses@.len() && forall|i: int|
            0 <= i < v@.len() ==> (#[trigger] v@[i])@ == address_bytes(addresses@[i]@),
{
    let mut out: Vec<[u8; 32]> = Vec::new();
    let mut i: usize = 0;
    while i < addresses.len()
        invariant
            i <= addresses@.len(),
            out@.len() == i,
            forall|j: int| 0 <= j < i ==> #[trigger] valid_address(addresses@[j]@),
            forall|j: int| 0 <= j < i ==> (#[trigger] out@[j])@ == address_bytes(addresses@[j]@),
        decreases addresses@.len() - i,
    {
        match parse_address(addresses[i].as_str()) {
            Ok(d) => out.push(d),
            Err(e) => return Err(e),
        }
        i = i + 1;
    }
    Ok(out)
}

} // verus!
