//! Validation of the plain-text inputs the engine is configured with: RPC
//! endpoints, addresses, private keys, chain ids, wait times and contract
//! names.

use vstd::prelude::*;
use vstd::string::StrSliceExecFns;

use crate::codec::{dec_text_ok, dec_value, hex_digit, is_hex_digit_char, u256_bound,
    uint256_text_ok};
use crate::error::Error;
use crate::scan::{starts_with_spec, starts_with_text};

verus! {

broadcast use vstd::string::group_string_axioms;

/// `s` names an HTTP or HTTPS endpoint.
pub open spec fn rpc_url_ok(s: Seq<char>) -> bool {
    starts_with_spec(s, "http://"@) || starts_with_spec(s, "https://"@)
}

/// `s` has the surface form of an address: `0x` and 40 hexadecimal digits.
/// This does not check the EIP-55 checksum; the codec's address parser does.
pub open spec fn address_format_ok(s: Seq<char>) -> bool {
    s.len() >= 2 && s[0] == '0' && s[1] == 'x' && s.len() == 42 && forall|i: int|
        2 <= i < s.len() ==> hex_digit(#[trigger] s[i])
}

/// `s` with every leading `0x` removed, repeatedly.
pub open spec fn strip_hex_prefixes(s: Seq<char>) -> Seq<char>
    decreases s.len(),
{
    if s.len() >= 2 && s[0] == '0' && s[1] == 'x' {
        strip_hex_prefixes(s.skip(2))
    } else {
        s
    }
}

/// After any leading `0x` prefixes, `s` is hexadecimal throughout.
pub open spec fn private_key_hex_ok(s: Seq<char>) -> bool {
    forall|i: int|
        0 <= i < strip_hex_prefixes(s).len() ==> hex_digit(#[trigger] strip_hex_prefixes(s)[i])
}

/// `s` passes the private-key check: 64 or 66 characters, hexadecimal after
/// any leading `0x` prefixes are removed.
pub open spec fn private_key_ok(s: Seq<char>) -> bool {
    (s.len() == 64 || s.len() == 66) && private_key_hex_ok(s)
}

/// Whether `c` belongs to Unicode's Alphabetic or Number classes.  The two
/// classes are large tables, so the predicate is left unnamed beyond this
/// symbol; `is_alphanumeric_char` is the one place it is given meaning.
pub uninterp spec fn alphanumeric_char(c: char) -> bool;

/// Relies on `char::is_alphanumeric`: whether `c` is in Unicode's
/// Alphabetic or Number classes, a function of the character alone.
#[verifier::external_body]
fn is_alphanumeric_char(c: char) -> (r: bool)
    ensures
        r == alphanumeric_char(c),
{
    c.is_alphanumeric()
}

/// Whether `s` is a well-formed duration text such as `30s`.  The grammar
/// belongs to the duration parser, so the predicate is left unnamed beyond
/// this symbol; `is_duration_text` is the one place it is given meaning.
pub uninterp spec fn duration_text(s: Seq<char>) -> bool;

/// Relies on `humantime::parse_duration` (what `humantime::Duration`'s
/// `FromStr` parses with): whether the text is a well-formed duration such
/// as `30s` or `1h 20min`, a function of the text alone.
#[verifier::external_body]
fn is_duration_text(s: &str) -> (r: bool)
    ensures
        r == duration_text(s@),
{
    humantime::parse_duration(s).is_ok()
}

/// `s` is acceptable as a contract name: non-empty, every character
/// alphanumeric or `_`.
pub open spec fn contract_name_ok(s: Seq<char>) -> bool {
    s.len() > 0 && forall|i: int| 0 <= i < s.len() ==> alphanumeric_char(#[trigger] s[i])
        || s[i] == '_'
}

/// Check that a URL names an HTTP or HTTPS endpoint.
pub fn validate_rpc_url(url: &str) -> (r: Result<(), Error>)
    ensures
        r is Ok <==> rpc_url_ok(url@),
        r matches Err(e) ==> e matches Error::InvalidAddress(s) && s@ == url@,
{
    if starts_with_text(url, "http://") || starts_with_text(url, "https://") {
        Ok(())
    } else {
        Err(Error::InvalidAddress(url.to_owned()))
    }
}

/// Check that an address has the `0x` + 40-hex-digit surface form.
///
/// The checks run in order — prefix, then length, then digits — and the
/// error message names the first one that fails.
pub fn validate_address(address: &str) -> (r: Result<(), Error>)
    ensures
        r is Ok <==> address_format_ok(address@),
        r matches Err(e) ==> e matches Error::InvalidAddress(_),
        r is Err && !(address@.len() >= 2 && address@[0] == '0' && address@[1] == 'x')
            ==> (r->Err_0 matches Error::InvalidAddress(m) && m@
            == "Address must start with 0x"@),
        r is Err && (address@.len() >= 2 && address@[0] == '0' && address@[1] == 'x')
            && address@.len() != 42 ==> (r->Err_0 matches Error::InvalidAddress(m) && m@
            == "Address must be 20 bytes (40 hex characters)"@),
        r is Err && (address@.len() >= 2 && address@[0] == '0' && address@[1] == 'x')
            && address@.len() == 42 ==> (r->Err_0 matches Error::InvalidAddress(m) && m@
            == "Address must be hexadecimal"@),
{
    proof {
        reveal_strlit("0x");
    }
    if !starts_with_text(address, "0x") {
        proof {
            if address@.len() >= 2 && address@[0] == '0' && address@[1] == 'x' {
                assert("0x"@ =~= address@.take(2));
            }
        }
        return Err(Error::InvalidAddress(String::from_str("Address must start with 0x")));
    }
    proof {
        assert(address@.take(2)[0] == address@[0] && address@.take(2)[1] == address@[1]);
    }
    let n = address.unicode_len();
    if n != 42 {
        return Err(Error::InvalidAddress(String::from_str(
            "Address must be 20 bytes (40 hex characters)",
        )));
    }
    let mut i: usize = 2;
    while i < n
        invariant
            2 <= i <= n,
            n == address@.len(),
            n == 42,
            address@[0] == '0' && address@[1] == 'x',
            forall|k: int| 2 <= k < i ==> hex_digit(#[trigger] address@[k]),
        decreases n - i,
    {
        if !is_hex_digit_char(address.get_char(i)) {
            return Err(Error::InvalidAddress(String::from_str("Address must be hexadecimal")));
        }
        i += 1;
    }
    Ok(())
}

fn strip_hex_prefixes_text<'a>(s: &'a str) -> (r: &'a str)
    ensures
        r@ == strip_hex_prefixes(s@),
{
    proof {
        reveal_strlit("0x");
    }
    let mut rest = s;
    loop
        invariant
            strip_hex_prefixes(s@) == strip_hex_prefixes(rest@),
        ensures
            strip_hex_prefixes(s@) == rest@,
        decreases rest@.len(),
    {
        if !starts_with_text(rest, "0x") {
            proof {
                reveal_strlit("0x");
                if rest@.len() >= 2 && rest@[0] == '0' && rest@[1] == 'x' {
                    assert("0x"@ =~= rest@.take(2));
                }
            }
            break;
        }
        proof {
            reveal_strlit("0x");
            assert(rest@.take(2)[0] == rest@[0] && rest@.take(2)[1] == rest@[1]);
        }
        let n = rest.unicode_len();
        let next = rest.substring_char(2, n);
        proof {
            assert(next@ =~= rest@.skip(2));
        }
        rest = next;
    }
    rest
}

/// Whether a private key is hexadecimal after any leading `0x` prefixes,
/// with no demand on its length.
pub fn private_key_chars_valid(private_key: &str) -> (r: bool)
    ensures
        r == private_key_hex_ok(private_key@),
{
    let digits = strip_hex_prefixes_text(private_key);
    let m = digits.unicode_len();
    let mut i: usize = 0;
    while i < m
        invariant
            0 <= i <= m,
            m == digits@.len(),
            digits@ == strip_hex_prefixes(private_key@),
            forall|k: int| 0 <= k < i ==> hex_digit(#[trigger] digits@[k]),
        decreases m - i,
    {
        if !is_hex_digit_char(digits.get_char(i)) {
            return false;
        }
        i += 1;
    }
    true
}

/// Check that a private key is 64 or 66 characters and hexadecimal after
/// any leading `0x` prefixes.
pub fn validate_private_key(private_key: &str) -> (r: Result<(), Error>)
    ensures
        r is Ok <==> private_key_ok(private_key@),
        r is Err && !(private_key@.len() == 64 || private_key@.len() == 66)
            ==> (r->Err_0 matches Error::InvalidPrivateKey(m) && m@
            == "Private key must be 32 bytes (64 hex characters)"@),
        r is Err && (private_key@.len() == 64 || private_key@.len() == 66)
            ==> (r->Err_0 matches Error::InvalidPrivateKey(m) && m@
            == "Private key must be hexadecimal"@),
{
    let n = private_key.unicode_len();
    if n != 64 && n != 66 {
        return Err(Error::InvalidPrivateKey(String::from_str(
            "Private key must be 32 bytes (64 hex characters)",
        )));
    }
    if !private_key_chars_valid(private_key) {
        return Err(Error::InvalidPrivateKey(String::from_str(
            "Private key must be hexadecimal",
        )));
    }
    Ok(())
}

/// Check that a chain id parses as a base-10 integer fitting in 256 bits.
pub fn validate_chain_id(chain_id: &str) -> (r: Result<(), Error>)
    ensures
        r is Ok <==> (dec_text_ok(chain_id@) && dec_value(chain_id@) < u256_bound()),
        r matches Err(e) ==> e matches Error::InvalidChainId(s) && s@ == chain_id@,
{
    if uint256_text_ok(chain_id) {
        Ok(())
    } else {
        Err(Error::InvalidChainId(chain_id.to_owned()))
    }
}

/// Check that a wait time is a well-formed duration text such as `30s`.
pub fn validate_wait_time(wait_time: &str) -> (r: Result<(), Error>)
    ensures
        r is Ok <==> duration_text(wait_time@),
        r matches Err(e) ==> e matches Error::InvalidWaitTime(s) && s@ == wait_time@,
{
    if is_duration_text(wait_time) {
        Ok(())
    } else {
        Err(Error::InvalidWaitTime(wait_time.to_owned()))
    }
}

/// Check that a contract name is non-empty and alphanumeric-or-underscore.
pub fn validate_contract_name(contract_name: &str) -> (r: Result<(), Error>)
    ensures
        r is Ok <==> contract_name_ok(contract_name@),
        r is Err && contract_name@.len() == 0 ==> (r->Err_0 matches Error::InvalidContract(m)
            && m@ == "Contract name cannot be empty"@),
        r is Err && contract_name@.len() > 0 ==> (r->Err_0 matches Error::InvalidContract(m)
            && m@ == "Contract name must be alphanumeric or underscore"@),
{
    let n = contract_name.unicode_len();
    if n == 0 {
        return Err(Error::InvalidContract(String::from_str("Contract name cannot be empty")));
    }
    let mut i: usize = 0;
    while i < n
        invariant
            0 <= i <= n,
            n == contract_name@.len(),
            forall|k: int| 0 <= k < i ==> alphanumeric_char(#[trigger] contract_name@[k])
                || contract_name@[k] == '_',
        decreases n - i,
    {
        let c = contract_name.get_char(i);
        if !is_alphanumeric_char(c) && c != '_' {
            return Err(Error::InvalidContract(String::from_str(
                "Contract name must be alphanumeric or underscore",
            )));
        }
        i += 1;
    }
    Ok(())
}

/// Check an address for a contract record; a failure is reported as an
/// invalid contract carrying the offending address.
pub fn validate_contract_address(address: &str) -> (r: Result<(), Error>)
    ensures
        r is Ok <==> address_format_ok(address@),
        r matches Err(e) ==> e matches Error::InvalidContract(s) && s@ == address@,
{
    match validate_address(address) {
        Ok(()) => Ok(()),
        Err(_) => Err(Error::InvalidContract(address.to_owned())),
    }
}

} // verus!
