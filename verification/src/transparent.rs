//! Transparent addresses: a version prefix that names the kind of address
//! and the network, followed by a twenty-byte hash, written as Base58Check.

use crate::base58check::base58check_payload;
use crate::base58check::decode_base58check;
use crate::base58check::starts_with;
use crate::base58check::DecodeError;
use vstd::prelude::*;

verus! {

/// Length in bytes of the hash that a transparent address carries.
pub const HASH_LEN: usize = 20;

/// An address of the transparent pool.
#[derive(Clone, Copy, Debug, PartialEq, Eq)]
pub enum TransparentAddress {
    /// The hash of a public key.
    PublicKeyHash([u8; 20]),
    /// The hash of a script.
    ScriptHash([u8; 20]),
}

/// What a [`TransparentAddress`] stands for: the kind of hash and its bytes.
pub enum TransparentAddressView {
    PublicKeyHash(Seq<u8>),
    ScriptHash(Seq<u8>),
}

impl TransparentAddressView {
    /// The bytes of the hash, whatever its kind.
    pub open spec fn hash(self) -> Seq<u8> {
        match self {
            TransparentAddressView::PublicKeyHash(hash) => hash,
            TransparentAddressView::ScriptHash(hash) => hash,
        }
    }
}

impl View for TransparentAddress {
    type V = TransparentAddressView;

    open spec fn view(&self) -> TransparentAddressView {
        match *self {
            TransparentAddress::PublicKeyHash(hash) => TransparentAddressView::PublicKeyHash(hash@),
            TransparentAddress::ScriptHash(hash) => TransparentAddressView::ScriptHash(hash@),
        }
    }
}

/// The address that a payload denotes under the two version prefixes of a
/// network. The public-key prefix is tried first and settles the matter where
/// it matches: a payload that begins with it is a public-key hash if exactly
/// twenty bytes follow, and no address otherwise. Only a payload that does
/// not begin with it is held against the script prefix, by the same rule.
pub open spec fn classify(
    pubkey_version: Seq<u8>,
    script_version: Seq<u8>,
    payload: Seq<u8>,
) -> Option<TransparentAddressView> {
    if pubkey_version.is_prefix_of(payload) {
        if payload.len() == pubkey_version.len() + HASH_LEN {
            Some(TransparentAddressView::PublicKeyHash(payload.skip(pubkey_version.len() as int)))
        } else {
            None
        }
    } else if script_version.is_prefix_of(payload) {
        if payload.len() == script_version.len() + HASH_LEN {
            Some(TransparentAddressView::ScriptHash(payload.skip(script_version.len() as int)))
        } else {
            None
        }
    } else {
        None
    }
}

/// What decoding `text` as a transparent address gives: an error where
/// `text` is not Base58Check, and otherwise the address that its payload
/// denotes, if any.
pub open spec fn transparent_decoding(
    pubkey_version: Seq<u8>,
    script_version: Seq<u8>,
    text: Seq<char>,
) -> Result<Option<TransparentAddressView>, DecodeError> {
    match base58check_payload(text) {
        Some(payload) => Ok(classify(pubkey_version, script_version, payload)),
        None => Err(DecodeError::InvalidEncoding),
    }
}

/// The bytes that stand for `address` inside Base58Check text: its version
/// prefix, then its hash.
pub open spec fn address_payload(
    pubkey_version: Seq<u8>,
    script_version: Seq<u8>,
    address: TransparentAddressView,
) -> Seq<u8> {
    match address {
        TransparentAddressView::PublicKeyHash(hash) => pubkey_version + hash,
        TransparentAddressView::ScriptHash(hash) => script_version + hash,
    }
}

/// Copies the twenty bytes of `payload` that start at `offset`.
fn hash_at(payload: &[u8], offset: usize) -> (hash: [u8; 20])
    requires
        offset + HASH_LEN == payload@.len(),
    ensures
        hash@ == payload@.skip(offset as int),
{
    let len: usize = payload.len();
    let mut hash = [0u8; 20];
    let mut i: usize = 0;
    while i < HASH_LEN
        invariant
            i <= HASH_LEN,
            offset + HASH_LEN == len == payload@.len(),
            forall|k: int| 0 <= k < i ==> hash@[k] == payload@[offset + k],
        decreases HASH_LEN - i,
    {
        hash[i] = payload[offset + i];
        i += 1;
    }
    assert(hash@ =~= payload@.skip(offset as int));
    hash
}

/// Tells which transparent address a Base58Check payload denotes.
///
/// Returns `Some` exactly when the payload is one of the two version prefixes
/// followed by twenty bytes, the public-key prefix being tried first; see
/// [`classify`]. A payload shorter than a prefix does not match it.
pub fn classify_payload(pubkey_version: &[u8], script_version: &[u8], payload: &[u8]) -> (r:
    Option<TransparentAddress>)
    ensures
        match classify(pubkey_version@, script_version@, payload@) {
            Some(view) => r matches Some(address) && address@ == view,
            None => r is None,
        },
{
    if starts_with(payload, pubkey_version) {
        if payload.len() - pubkey_version.len() == HASH_LEN {
            Some(TransparentAddress::PublicKeyHash(hash_at(payload, pubkey_version.len())))
        } else {
            None
        }
    } else if starts_with(payload, script_version) {
        if payload.len() - script_version.len() == HASH_LEN {
            Some(TransparentAddress::ScriptHash(hash_at(payload, script_version.len())))
        } else {
            None
        }
    } else {
        None
    }
}

/// Decodes a transparent address from Base58Check text.
///
/// Fails with [`DecodeError::InvalidEncoding`] exactly when `s` is not
/// Base58Check. Otherwise returns the address that the payload denotes under
/// the two version prefixes, or `None` where it denotes none: a prefix that
/// is followed by other than twenty bytes is no error.
pub fn decode_transparent_address(pubkey_version: &[u8], script_version: &[u8], s: &str) -> (r:
    Result<Option<TransparentAddress>, DecodeError>)
    ensures
        match transparent_decoding(pubkey_version@, script_version@, s@) {
            Ok(Some(view)) => r matches Ok(Some(address)) && address@ == view,
            Ok(None) => r matches Ok(None),
            Err(e) => r matches Err(err) && err == e,
        },
{
    match decode_base58check(s) {
        Ok(payload) => Ok(classify_payload(pubkey_version, script_version, payload.as_slice())),
        Err(e) => Err(e),
    }
}

/// Two addresses with the same view are the same address: the view keeps the
/// kind and every byte of the hash.
pub proof fn lemma_view_is_injective(a: TransparentAddress, b: TransparentAddress)
    requires
        a@ == b@,
    ensures
        a == b,
{
    match (a, b) {
        (TransparentAddress::PublicKeyHash(x), TransparentAddress::PublicKeyHash(y)) => {
            assert(x@ == y@);
            assert(x =~= y);
        },
        (TransparentAddress::ScriptHash(x), TransparentAddress::ScriptHash(y)) => {
            assert(x@ == y@);
            assert(x =~= y);
        },
        _ => {},
    }
}

/// Base58Check text whose payload is the public-key version followed by
/// exactly twenty bytes decodes to the public-key hash made of those bytes.
pub proof fn lemma_pubkey_hash_is_decoded(
    pubkey_version: Seq<u8>,
    script_version: Seq<u8>,
    text: Seq<char>,
    payload: Seq<u8>,
)
    requires
        base58check_payload(text) == Some(payload),
        pubkey_version.is_prefix_of(payload),
        payload.len() == pubkey_version.len() + HASH_LEN,
    ensures
        transparent_decoding(pubkey_version, script_version, text) matches Ok(
            Some(TransparentAddressView::PublicKeyHash(hash)),
        ) && hash == payload.skip(pubkey_version.len() as int),
{
}

/// Base58Check text whose payload is the script version followed by exactly
/// twenty bytes decodes to the script hash made of those bytes, unless the
/// payload begins with the public-key version as well, which is tried first.
pub proof fn lemma_script_hash_is_decoded(
    pubkey_version: Seq<u8>,
    script_version: Seq<u8>,
    text: Seq<char>,
    payload: Seq<u8>,
)
    requires
        base58check_payload(text) == Some(payload),
        script_version.is_prefix_of(payload),
        payload.len() == script_version.len() + HASH_LEN,
        !pubkey_version.is_prefix_of(payload),
    ensures
        transparent_decoding(pubkey_version, script_version, text) matches Ok(
            Some(TransparentAddressView::ScriptHash(hash)),
        ) && hash == payload.skip(script_version.len() as int),
{
}

/// Base58Check text whose payload begins with the public-key version and
/// goes on for other than twenty bytes decodes to no address, and to no
/// error either.
pub proof fn lemma_wrong_length_is_no_address(
    pubkey_version: Seq<u8>,
    script_version: Seq<u8>,
    text: Seq<char>,
    payload: Seq<u8>,
)
    requires
        base58check_payload(text) == Some(payload),
        pubkey_version.is_prefix_of(payload),
        payload.len() != pubkey_version.len() + HASH_LEN,
    ensures
        transparent_decoding(pubkey_version, script_version, text) matches Ok(None),
{
}

/// Text that is not Base58Check decodes to [`DecodeError::InvalidEncoding`],
/// whatever the version prefixes.
pub proof fn lemma_invalid_text_is_an_error(
    pubkey_version: Seq<u8>,
    script_version: Seq<u8>,
    text: Seq<char>,
)
    requires
        base58check_payload(text) is None,
    ensures
        transparent_decoding(pubkey_version, script_version, text) matches Err(
            DecodeError::InvalidEncoding,
        ),
{
}

/// Decoding undoes encoding: Base58Check text whose payload is the version
/// prefix of `address` followed by its hash decodes to `address` again, kind
/// and bytes. The one exception is a script hash on a network whose
/// public-key version begins the script payload too (the two versions are
/// equal, say): such text is read as a public-key hash or as nothing.
pub proof fn lemma_decoding_inverts_encoding(
    pubkey_version: Seq<u8>,
    script_version: Seq<u8>,
    address: TransparentAddress,
    text: Seq<char>,
)
    requires
        base58check_payload(text) == Some(
            address_payload(pubkey_version, script_version, address@),
        ),
        address is ScriptHash ==> !pubkey_version.is_prefix_of(
            address_payload(pubkey_version, script_version, address@),
        ),
    ensures
        transparent_decoding(pubkey_version, script_version, text) matches Ok(Some(decoded))
            && decoded == address@,
{
    let payload = address_payload(pubkey_version, script_version, address@);
    match address {
        TransparentAddress::PublicKeyHash(hash) => {
            assert(payload.take(pubkey_version.len() as int) =~= pubkey_version);
            assert(payload.skip(pubkey_version.len() as int) =~= hash@);
        },
        TransparentAddress::ScriptHash(hash) => {
            assert(payload.take(script_version.len() as int) =~= script_version);
            assert(payload.skip(script_version.len() as int) =~= hash@);
        },
    }
}

/// Base58Check text whose payload begins with the script version, and is
/// not an address under the public-key version, decodes to no address where
/// other than twenty bytes follow the script version, and to no error either.
pub proof fn lemma_wrong_length_after_script_version_is_no_address(
    pubkey_version: Seq<u8>,
    script_version: Seq<u8>,
    text: Seq<char>,
    payload: Seq<u8>,
)
    requires
        base58check_payload(text) == Some(payload),
        script_version.is_prefix_of(payload),
        payload.len() != script_version.len() + HASH_LEN,
        pubkey_version.is_prefix_of(payload) ==> payload.len() != pubkey_version.len() + HASH_LEN,
    ensures
        transparent_decoding(pubkey_version, script_version, text) matches Ok(None),
{
}

/// On a network whose two versions are equally long, Base58Check text whose
/// payload begins with either version and does not go on for exactly twenty
/// bytes decodes to no address, and to no error: so does a version followed
/// by nineteen bytes.
pub proof fn lemma_truncated_hash_is_no_address(
    pubkey_version: Seq<u8>,
    script_version: Seq<u8>,
    text: Seq<char>,
    payload: Seq<u8>,
)
    requires
        pubkey_version.len() == script_version.len(),
        base58check_payload(text) == Some(payload),
        pubkey_version.is_prefix_of(payload) || script_version.is_prefix_of(payload),
        payload.len() != pubkey_version.len() + HASH_LEN,
    ensures
        transparent_decoding(pubkey_version, script_version, text) matches Ok(None),
{
}

/// On a network whose two versions are equally long and differ, decoding
/// undoes encoding without exception: Base58Check text whose payload is the
/// version of `address` followed by its hash decodes to `address`, kind and
/// bytes.
pub proof fn lemma_decoding_inverts_encoding_for_distinct_versions(
    pubkey_version: Seq<u8>,
    script_version: Seq<u8>,
    address: TransparentAddress,
    text: Seq<char>,
)
    requires
        pubkey_version.len() == script_version.len(),
        pubkey_version != script_version,
        base58check_payload(text) == Some(
            address_payload(pubkey_version, script_version, address@),
        ),
    ensures
        transparent_decoding(pubkey_version, script_version, text) matches Ok(Some(decoded))
            && decoded == address@,
{
    let payload = address_payload(pubkey_version, script_version, address@);
    if address is ScriptHash && pubkey_version.is_prefix_of(payload) {
        assert(payload.take(script_version.len() as int) =~= script_version);
        assert(pubkey_version =~= script_version);
    }
    lemma_decoding_inverts_encoding(pubkey_version, script_version, address, text);
}

} // verus!
