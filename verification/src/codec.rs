//! The type codec: encoding one textual value into the binary form one
//! primitive parameter type requires.
//!
//! Supported type tags are `address`, `uint256`/`int256`, `bool`, `string`
//! and `bytes`.  The emitted bytes are the raw value only: dynamic-type
//! length prefixes and offsets are the concern of a later ABI-encoding pass,
//! not of this codec.

use vstd::prelude::*;
use vstd::arithmetic::power::pow;
use vstd::string::StrSliceExecFns;
use vstd::utf8::encode_utf8;

use crate::error::{ArgumentIssue, Error};
use crate::scan::{starts_with_spec, starts_with_text, str_equal};

verus! {

broadcast use vstd::string::group_string_axioms;

/// `c` is a decimal digit.
pub open spec fn dec_digit(c: char) -> bool {
    0x30 <= c as u32 <= 0x39
}

/// The value of the decimal digit `c`.
pub open spec fn dec_digit_val(c: char) -> nat {
    (c as u32 - 0x30) as nat
}

/// Every character of `s` is a decimal digit or an `_` separator —
/// exactly the texts the base-10 integer parser accepts.
pub open spec fn dec_text_ok(s: Seq<char>) -> bool {
    forall|i: int| 0 <= i < s.len() ==> dec_digit(#[trigger] s[i]) || s[i] == '_'
}

/// The base-10 value of `s`, skipping `_` separators.
pub open spec fn dec_value(s: Seq<char>) -> nat
    decreases s.len(),
{
    if s.len() == 0 {
        0
    } else if s[s.len() - 1] == '_' {
        dec_value(s.drop_last())
    } else {
        dec_value(s.drop_last()) * 10 + dec_digit_val(s[s.len() - 1])
    }
}

/// The first integer too large for 256 bits.
pub open spec fn u256_bound() -> nat {
    pow(256, 32) as nat
}

/// The integer a big-endian byte string stands for.
pub open spec fn be_val(b: Seq<u8>) -> nat
    decreases b.len(),
{
    if b.len() == 0 {
        0
    } else {
        be_val(b.drop_last()) * 256 + b[b.len() - 1] as nat
    }
}

/// The `len`-byte big-endian encoding of `n` (mod 256^len).
pub open spec fn be_bytes_of(n: nat, len: nat) -> Seq<u8>
    decreases len,
{
    if len == 0 {
        Seq::empty()
    } else {
        be_bytes_of(n / 256, (len - 1) as nat).push((n % 256) as u8)
    }
}

/// `c` is a hexadecimal digit of either case.
pub open spec fn hex_digit(c: char) -> bool {
    let u = c as u32;
    (0x30 <= u && u <= 0x39) || (0x41 <= u && u <= 0x46) || (0x61 <= u && u <= 0x66)
}

/// The value of the hexadecimal digit `c`.
pub open spec fn hex_digit_val(c: char) -> nat {
    let u = c as u32;
    if 0x30 <= u && u <= 0x39 {
        (u - 0x30) as nat
    } else if 0x41 <= u && u <= 0x46 {
        (u - 0x41 + 10) as nat
    } else {
        (u - 0x61 + 10) as nat
    }
}

/// Whether `c` is a hexadecimal digit of either case.
pub fn is_hex_digit_char(c: char) -> (r: bool)
    ensures
        r == hex_digit(c),
{
    let u = c as u32;
    (0x30 <= u && u <= 0x39) || (0x41 <= u && u <= 0x46) || (0x61 <= u && u <= 0x66)
}

/// `s` is an even-length string of hexadecimal digits — exactly the texts
/// the hexadecimal decoder accepts.
pub open spec fn hex_text_ok(s: Seq<char>) -> bool {
    s.len() % 2 == 0 && forall|i: int| 0 <= i < s.len() ==> hex_digit(#[trigger] s[i])
}

/// The bytes a hexadecimal string stands for, one per digit pair.
pub open spec fn hex_bytes_spec(s: Seq<char>) -> Seq<u8> {
    Seq::new(s.len() / 2, |i: int| (hex_digit_val(s[2 * i]) * 16 + hex_digit_val(s[2 * i + 1])) as u8)
}

/// `s` with a single leading `0x` removed, if present.
pub open spec fn strip_hex_prefix(s: Seq<char>) -> Seq<char> {
    if s.len() >= 2 && s[0] == '0' && s[1] == 'x' {
        s.skip(2)
    } else {
        s
    }
}

/// The 20 address bytes named by an EIP-55 checksummed address text, if the
/// text is one.  Which texts qualify rests on a Keccak-256 digest, so the
/// function is left unnamed beyond this symbol; `parse_checksummed_address`
/// is the one place it is given meaning.
pub uninterp spec fn checksummed_address(s: Seq<char>) -> Option<Seq<u8>>;

/// Relies on alloy's `Address::parse_checksummed` (without a chain id): it
/// succeeds exactly on `0x`-prefixed, EIP-55 checksummed address texts and
/// returns the 20 bytes of the address.
#[verifier::external_body]
pub fn parse_checksummed_address(s: &str) -> (r: Option<Vec<u8>>)
    ensures
        r is Some <==> checksummed_address(s@) is Some,
        r matches Some(b) ==> Some(b@) == checksummed_address(s@) && b@.len() == 20,
{
    match alloy_primitives::Address::parse_checksummed(s, None) {
        Ok(a) => Some(a.as_slice().to_vec()),
        Err(_) => None,
    }
}

/// Relies on alloy's `U256::from_str_radix` with radix 10 — it accepts
/// decimal digits with `_` separators (an empty text counts as zero) and
/// rejects any other character and any value of 256 bits or more — and on
/// `U256::to_be_bytes`, which yields the value as 32 big-endian bytes.
#[verifier::external_body]
fn uint256_be_bytes(s: &str) -> (r: Option<Vec<u8>>)
    ensures
        r is Some <==> (dec_text_ok(s@) && dec_value(s@) < u256_bound()),
        r matches Some(b) ==> b@.len() == 32 && be_val(b@) == dec_value(s@),
{
    match alloy_primitives::U256::from_str_radix(s, 10) {
        Ok(n) => Some(n.to_be_bytes::<32>().to_vec()),
        Err(_) => None,
    }
}

/// Whether `s` parses as a base-10 integer fitting in 256 bits.
pub fn uint256_text_ok(s: &str) -> (r: bool)
    ensures
        r == (dec_text_ok(s@) && dec_value(s@) < u256_bound()),
{
    uint256_be_bytes(s).is_some()
}

/// Relies on `hex::decode`: it succeeds exactly on even-length strings of
/// hexadecimal digits of either case and yields one byte per digit pair.
#[verifier::external_body]
fn hex_decode(s: &str) -> (r: Option<Vec<u8>>)
    ensures
        r is Some <==> hex_text_ok(s@),
        r matches Some(b) ==> b@ == hex_bytes_spec(s@),
{
    hex::decode(s).ok()
}

proof fn lemma_be_bytes_of_len(n: nat, len: nat)
    ensures
        be_bytes_of(n, len).len() == len,
    decreases len,
{
    if len > 0 {
        lemma_be_bytes_of_len(n / 256, (len - 1) as nat);
    }
}

/// A byte string is the big-endian encoding of its own value.
proof fn lemma_be_bytes_of_be_val(b: Seq<u8>)
    ensures
        be_bytes_of(be_val(b), b.len()) == b,
    decreases b.len(),
{
    if b.len() == 0 {
        assert(be_bytes_of(0, 0) =~= b);
    } else {
        let n = be_val(b);
        let head = b.drop_last();
        let last = b[b.len() - 1];
        assert(n == be_val(head) * 256 + last);
        assert(n % 256 == last && n / 256 == be_val(head)) by (nonlinear_arith)
            requires
                n == be_val(head) * 256 + last,
                0 <= last < 256,
        ;
        lemma_be_bytes_of_be_val(head);
        assert(be_bytes_of(n, b.len()) =~= b);
    }
}

/// Law: interpreting the `len`-byte big-endian encoding of `n` gives `n`
/// back, for every `n` that fits in `len` bytes.
pub proof fn lemma_be_round_trip(n: nat, len: nat)
    requires
        n < pow(256, len as nat),
    ensures
        be_bytes_of(n, len).len() == len,
        be_val(be_bytes_of(n, len)) == n,
    decreases len,
{
    reveal(pow);
    lemma_be_bytes_of_len(n, len);
    if len == 0 {
        assert(pow(256, 0) == 1);
    } else {
        assert(pow(256, len) == 256 * pow(256, (len - 1) as nat));
        assert(n / 256 < pow(256, (len - 1) as nat) && n == (n / 256) * 256 + n % 256)
            by (nonlinear_arith)
            requires
                n < 256 * pow(256, (len - 1) as nat),
        ;
        lemma_be_round_trip(n / 256, (len - 1) as nat);
        let b = be_bytes_of(n, len);
        assert(b.drop_last() =~= be_bytes_of(n / 256, (len - 1) as nat));
        assert(be_val(b) == be_val(b.drop_last()) * 256 + b[b.len() - 1]);
    }
}

/// Law: a value the codec accepts at `uint256` or `int256` encodes to 32
/// big-endian bytes whose integer interpretation is the value itself.
pub proof fn lemma_uint256_round_trip(tag: Seq<char>, v: Seq<char>)
    requires
        tag == "uint256"@ || tag == "int256"@,
        scalar_ok(tag, v),
    ensures
        scalar_bytes(tag, v).len() == 32,
        be_val(scalar_bytes(tag, v)) == dec_value(v),
{
    reveal_strlit("address");
    reveal_strlit("uint256");
    reveal_strlit("int256");
    assert("address"@.len() == 7);
    assert("uint256"@.len() == 7);
    assert("int256"@.len() == 6);
    assert("address"@[0] == 'a');
    assert("uint256"@[0] == 'u');
    vstd::arithmetic::power::lemma_pow_positive(256, 32);
    lemma_be_round_trip(dec_value(v), 32);
}

/// Whether the codec accepts `v` for the type tag `tag`.
pub open spec fn scalar_ok(tag: Seq<char>, v: Seq<char>) -> bool {
    if tag == "address"@ {
        checksummed_address(v) is Some
    } else if tag == "uint256"@ || tag == "int256"@ {
        dec_text_ok(v) && dec_value(v) < u256_bound()
    } else if tag == "bool"@ {
        v == "true"@ || v == "false"@
    } else if tag == "string"@ {
        true
    } else if tag == "bytes"@ {
        hex_text_ok(strip_hex_prefix(v))
    } else {
        false
    }
}

/// The bytes the codec emits for `v` at type tag `tag`, when it accepts.
pub open spec fn scalar_bytes(tag: Seq<char>, v: Seq<char>) -> Seq<u8> {
    if tag == "address"@ {
        checksummed_address(v).unwrap()
    } else if tag == "uint256"@ || tag == "int256"@ {
        be_bytes_of(dec_value(v), 32)
    } else if tag == "bool"@ {
        if v == "true"@ {
            seq![1u8]
        } else {
            seq![0u8]
        }
    } else if tag == "string"@ {
        encode_utf8(v)
    } else {
        hex_bytes_spec(strip_hex_prefix(v))
    }
}

/// The error the codec reports for `v` at type tag `tag`, when it rejects.
pub open spec fn scalar_error_spec(tag: Seq<char>, v: Seq<char>, e: Error) -> bool {
    if tag == "address"@ {
        e matches Error::InvalidAddress(s) && s@ == v
    } else if tag == "uint256"@ || tag == "int256"@ {
        e matches Error::InvalidArguments(ArgumentIssue::Number(s)) && s@ == v
    } else if tag == "bool"@ {
        e matches Error::InvalidArguments(ArgumentIssue::Boolean(s)) && s@ == v
    } else if tag == "bytes"@ {
        e matches Error::InvalidArguments(ArgumentIssue::Hex(s)) && s@ == v
    } else {
        e matches Error::InvalidArguments(ArgumentIssue::UnsupportedType(s)) && s@ == tag
    }
}

fn strip_hex_prefix_text<'a>(s: &'a str) -> (r: &'a str)
    ensures
        r@ == strip_hex_prefix(s@),
{
    proof {
        reveal_strlit("0x");
    }
    if starts_with_text(s, "0x") {
        proof {
            assert(s@.take(2)[0] == s@[0] && s@.take(2)[1] == s@[1]);
            assert(s@[0] == '0' && s@[1] == 'x');
        }
        let n = s.unicode_len();
        let r = s.substring_char(2, n);
        proof {
            assert(r@ =~= s@.skip(2));
        }
        r
    } else {
        proof {
            if s@.len() >= 2 && s@[0] == '0' && s@[1] == 'x' {
                assert("0x"@ =~= s@.take(2));
                assert(starts_with_spec(s@, "0x"@));
            }
        }
        s
    }
}

/// Encode one textual value at one primitive type tag.
///
/// Accepts exactly the values `scalar_ok` allows: a checksummed address
/// yields its 20 bytes, a base-10 integer below 2^256 its 32 big-endian
/// bytes, a literal `true`/`false` one byte, a `string` its UTF-8 bytes, and
/// a `bytes` hexadecimal text (optionally `0x`-prefixed) its decoded bytes.
/// Any other tag is rejected as unsupported.
pub fn encode_scalar(value: &str, type_tag: &str) -> (r: Result<Vec<u8>, Error>)
    ensures
        r is Ok <==> scalar_ok(type_tag@, value@),
        r matches Ok(b) ==> b@ == scalar_bytes(type_tag@, value@),
        r matches Err(e) ==> scalar_error_spec(type_tag@, value@, e),
        type_tag@ == "address"@ && r is Ok ==> r->Ok_0@.len() == 20,
        (type_tag@ == "uint256"@ || type_tag@ == "int256"@) && r is Ok ==> r->Ok_0@.len() == 32
            && be_val(r->Ok_0@) == dec_value(value@),
{
    proof {
        reveal_strlit("address");
        reveal_strlit("uint256");
        reveal_strlit("int256");
        reveal_strlit("bool");
        reveal_strlit("string");
        reveal_strlit("bytes");
    }
    if str_equal(type_tag, "address") {
        proof {
            assert("address"@.len() == 7);
            assert("address"@[0] == 'a');
            assert("uint256"@[0] == 'u');
            assert("int256"@.len() == 6);
            assert(type_tag@ != "uint256"@ && type_tag@ != "int256"@);
        }
        match parse_checksummed_address(value) {
            Some(b) => Ok(b),
            None => Err(Error::InvalidAddress(value.to_owned())),
        }
    } else if str_equal(type_tag, "uint256") || str_equal(type_tag, "int256") {
        match uint256_be_bytes(value) {
            Some(b) => {
                proof {
                    lemma_be_bytes_of_be_val(b@);
                }
                Ok(b)
            },
            None => Err(Error::InvalidArguments(ArgumentIssue::Number(value.to_owned()))),
        }
    } else if str_equal(type_tag, "bool") {
        proof {
            reveal_strlit("true");
            reveal_strlit("false");
        }
        if str_equal(value, "true") {
            Ok(vec![1u8])
        } else if str_equal(value, "false") {
            Ok(vec![0u8])
        } else {
            Err(Error::InvalidArguments(ArgumentIssue::Boolean(value.to_owned())))
        }
    } else if str_equal(type_tag, "string") {
        Ok(value.as_bytes_vec())
    } else if str_equal(type_tag, "bytes") {
        let digits = strip_hex_prefix_text(value);
        match hex_decode(digits) {
            Some(b) => Ok(b),
            None => Err(Error::InvalidArguments(ArgumentIssue::Hex(value.to_owned()))),
        }
    } else {
        Err(Error::InvalidArguments(ArgumentIssue::UnsupportedType(type_tag.to_owned())))
    }
}

} // verus!
