//! Base58Check text: Base58 digits that stand for a payload followed by the
//! first four bytes of the payload's double SHA-256 digest.
//!
//! The Base58 alphabet and SHA-256 come from the `base58` and `sha2` crates.
//! Everything that is decided about the decoded bytes (how long they must be,
//! where the checksum sits, whether it matches) is decided here.

use base58::FromBase58;
use base58::FromBase58Error;
use sha2::Digest;
use sha2::Sha256;
use vstd::prelude::*;
use vstd::std_specs::iter::IteratorSpec;
use vstd::slice::slice_subrange;
use vstd::slice::slice_to_vec;
use vstd::string::StrSliceExecFns;

verus! {

/// Number of checksum bytes that close a Base58Check payload.
pub const CHECKSUM_LEN: usize = 4;

/// Why a text could not be read as Base58Check.
#[derive(Clone, Copy, Debug, PartialEq, Eq)]
pub enum DecodeError {
    /// The Base58 decoder turned the text down, or the text stands for fewer
    /// than [`CHECKSUM_LEN`] bytes, or it ends in a checksum that does not
    /// match.
    InvalidEncoding,
}

#[verifier::external_type_specification]
#[verifier::external_body]
pub struct ExFromBase58Error(FromBase58Error);

/// The bytes that the `base58` crate reads out of `digits`, a text that does
/// not begin with `1`, or `None` where it reports an error.
pub uninterp spec fn base58_decoding(digits: Seq<char>) -> Option<Seq<u8>>;

/// The SHA-256 digest of `data`, as the `sha2` crate computes it.
pub uninterp spec fn sha256(data: Seq<u8>) -> Seq<u8>;

/// Calls `base58::FromBase58::from_base58` on `digits`.
///
/// Trusted: the call is a function of the text alone, and `base58_decoding`
/// names what it returns. Nothing is claimed about the bytes themselves.
/// The decoder can panic only where it takes the count of leading `1`
/// characters from the count of leading zero bytes in its buffer, so the
/// precondition keeps out every text that begins with `1`.
#[verifier::external_body]
fn base58_decode(digits: &str) -> (r: Result<Vec<u8>, FromBase58Error>)
    requires
        digits@.len() == 0 || digits@[0] != '1',
    ensures
        match r {
            Ok(bytes) => base58_decoding(digits@) == Some(bytes@),
            Err(_) => base58_decoding(digits@) is None,
        },
{
    digits.from_base58()
}

/// Calls `sha2::Sha256::digest` on `data`.
///
/// Trusted: the digest is a function of the data alone, and `sha256` names
/// it. That it is 32 bytes long is carried by the result's type.
#[verifier::external_body]
fn sha256_digest(data: &[u8]) -> (digest: [u8; 32])
    ensures
        digest@ == sha256(data@),
{
    Sha256::digest(data).into()
}

/// SHA-256 applied twice, the digest from which Base58Check takes its checksum.
pub open spec fn double_sha256(data: Seq<u8>) -> Seq<u8> {
    sha256(sha256(data))
}

/// The checksum of `payload`: the first four bytes of its double digest.
pub open spec fn checksum(payload: Seq<u8>) -> Seq<u8> {
    double_sha256(payload).take(CHECKSUM_LEN as int)
}

/// The payload inside `decoded`, where `decoded` is a payload followed by its
/// checksum; `None` where `decoded` is too short to hold a checksum or its
/// last four bytes are not the checksum of what stands before them.
pub open spec fn checked_payload(decoded: Seq<u8>) -> Option<Seq<u8>> {
    let split = decoded.len() - CHECKSUM_LEN;
    if split >= 0 && decoded.skip(split) == checksum(decoded.take(split)) {
        Some(decoded.take(split))
    } else {
        None
    }
}

/// How many `1` characters stand at the beginning of `text`.
pub open spec fn leading_ones(text: Seq<char>) -> nat
    decreases text.len(),
{
    if text.len() > 0 && text[0] == '1' {
        1 + leading_ones(text.drop_first())
    } else {
        0
    }
}

/// The bytes that `text` stands for in Base58: one zero byte for each
/// leading `1`, then what the decoder reads out of the rest; `None` where
/// the decoder reports an error for the rest.
pub open spec fn base58_bytes(text: Seq<char>) -> Option<Seq<u8>> {
    let ones = leading_ones(text);
    match base58_decoding(text.skip(ones as int)) {
        Some(digits) => Some(Seq::new(ones, |i: int| 0u8) + digits),
        None => None,
    }
}

/// The payload that `text` carries as Base58Check, or `None` where `text` is
/// not Base58Check: the decoder reports an error, or the checksum is missing
/// or wrong.
pub open spec fn base58check_payload(text: Seq<char>) -> Option<Seq<u8>> {
    match base58_bytes(text) {
        Some(decoded) => checked_payload(decoded),
        None => None,
    }
}

/// `text` begins with exactly `ones` characters `1`.
pub proof fn lemma_leading_ones(text: Seq<char>, ones: nat)
    requires
        ones <= text.len(),
        forall|i: int| 0 <= i < ones ==> text[i] == '1',
        ones == text.len() || text[ones as int] != '1',
    ensures
        leading_ones(text) == ones,
    decreases ones,
{
    if ones > 0 {
        let rest = text.drop_first();
        assert(forall|i: int| 0 <= i < ones - 1 ==> rest[i] == text[i + 1]);
        lemma_leading_ones(rest, (ones - 1) as nat);
    }
}

/// Counts the `1` characters with which `text` begins.
pub fn count_leading_ones(text: &str) -> (ones: usize)
    ensures
        ones == leading_ones(text@),
        ones <= text@.len(),
        ones == text@.len() || text@[ones as int] != '1',
{
    broadcast use vstd::string::axiom_spec_iter;
    broadcast use vstd::string::next_postcondition;

    let len: usize = text.unicode_len();
    let mut chars = text.chars();
    let mut ones: usize = 0;
    let mut done = false;
    while !done
        invariant
            ones <= len == text@.len(),
            !done ==> chars.remaining() == text@.skip(ones as int),
            forall|i: int| 0 <= i < ones ==> text@[i] == '1',
            done ==> (ones == len || text@[ones as int] != '1'),
        decreases len - ones + (if done { 0int } else { 1int }),
    {
        match chars.next() {
            Some(c) => {
                assert(c == text@[ones as int]);
                if c == '1' {
                    assert(text@.skip(ones as int).drop_first() =~= text@.skip(ones + 1));
                    ones += 1;
                } else {
                    done = true;
                }
            },
            None => {
                done = true;
            },
        }
    }
    proof {
        lemma_leading_ones(text@, ones as nat);
    }
    ones
}

/// `ones` zero bytes followed by `digits`.
pub fn zero_padded(ones: usize, digits: &[u8]) -> (bytes: Vec<u8>)
    ensures
        bytes@ == Seq::new(ones as nat, |i: int| 0u8) + digits@,
{
    let mut bytes: Vec<u8> = Vec::new();
    let mut i: usize = 0;
    while i < ones
        invariant
            i <= ones,
            bytes@ =~= Seq::new(i as nat, |k: int| 0u8),
        decreases ones - i,
    {
        bytes.push(0u8);
        i += 1;
    }
    let mut j: usize = 0;
    while j < digits.len()
        invariant
            j <= digits@.len(),
            bytes@ =~= Seq::new(ones as nat, |k: int| 0u8) + digits@.take(j as int),
        decreases digits@.len() - j,
    {
        bytes.push(digits[j]);
        j += 1;
    }
    assert(digits@.take(j as int) =~= digits@);
    bytes
}

/// Reads `text` as Base58: the leading `1` characters are taken off and
/// counted, the decoder reads the rest, and one zero byte for each `1` is put
/// in front of what it read.
pub fn decode_base58(text: &str) -> (r: Option<Vec<u8>>)
    ensures
        match base58_bytes(text@) {
            Some(view) => r matches Some(bytes) && bytes@ == view,
            None => r is None,
        },
{
    let len: usize = text.unicode_len();
    let ones: usize = count_leading_ones(text);
    let rest = text.substring_char(ones, len);
    assert(rest@ =~= text@.skip(ones as int));
    match base58_decode(rest) {
        Ok(digits) => Some(zero_padded(ones, digits.as_slice())),
        Err(_) => None,
    }
}

/// Whether `bytes` begins with `prefix`.
pub fn starts_with(bytes: &[u8], prefix: &[u8]) -> (r: bool)
    ensures
        r == prefix@.is_prefix_of(bytes@),
{
    if prefix.len() > bytes.len() {
        return false;
    }
    let mut i: usize = 0;
    while i < prefix.len()
        invariant
            i <= prefix@.len() <= bytes@.len(),
            prefix@.take(i as int) =~= bytes@.take(i as int),
        decreases prefix@.len() - i,
    {
        if prefix[i] != bytes[i] {
            assert(prefix@[i as int] != bytes@.take(prefix@.len() as int)[i as int]);
            return false;
        }
        assert(prefix@.take(i + 1) =~= prefix@.take(i as int).push(prefix@[i as int]));
        assert(bytes@.take(i + 1) =~= bytes@.take(i as int).push(bytes@[i as int]));
        i += 1;
    }
    assert(prefix@.take(i as int) =~= prefix@);
    true
}

/// SHA-256 of the SHA-256 of `data`.
pub fn double_sha256_digest(data: &[u8]) -> (digest: [u8; 32])
    ensures
        digest@ == double_sha256(data@),
{
    let first = sha256_digest(data);
    sha256_digest(first.as_slice())
}

/// Whether `tail` is the checksum that `digest` gives, where `digest` is the
/// double digest of a payload.
pub fn checksum_matches(digest: &[u8; 32], tail: &[u8]) -> (r: bool)
    ensures
        r == (tail@ == digest@.take(CHECKSUM_LEN as int)),
{
    let matches = tail.len() == CHECKSUM_LEN && starts_with(digest.as_slice(), tail);
    assert(matches == (tail@ =~= digest@.take(CHECKSUM_LEN as int)));
    matches
}

/// Splits decoded Base58Check bytes into payload and checksum, and returns
/// the payload if the checksum is the right one for it.
pub fn strip_checksum(decoded: &[u8]) -> (r: Option<Vec<u8>>)
    ensures
        match checked_payload(decoded@) {
            Some(view) => r matches Some(payload) && payload@ == view,
            None => r is None,
        },
{
    let len: usize = decoded.len();
    if len < CHECKSUM_LEN {
        return None;
    }
    let payload = slice_subrange(decoded, 0, len - CHECKSUM_LEN);
    let tail = slice_subrange(decoded, len - CHECKSUM_LEN, len);
    let digest = double_sha256_digest(payload);
    if checksum_matches(&digest, tail) {
        Some(slice_to_vec(payload))
    } else {
        None
    }
}

/// Reads `text` as Base58Check and returns the payload it carries.
///
/// Fails with [`DecodeError::InvalidEncoding`] exactly when `text` is not
/// Base58Check, that is when [`base58check_payload`] is `None`.
pub fn decode_base58check(text: &str) -> (r: Result<Vec<u8>, DecodeError>)
    ensures
        match base58check_payload(text@) {
            Some(view) => r matches Ok(payload) && payload@ == view,
            None => r matches Err(DecodeError::InvalidEncoding),
        },
{
    match decode_base58(text) {
        Some(decoded) => match strip_checksum(decoded.as_slice()) {
            Some(payload) => Ok(payload),
            None => Err(DecodeError::InvalidEncoding),
        },
        None => Err(DecodeError::InvalidEncoding),
    }
}

} // verus!
