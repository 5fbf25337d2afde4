//! Addresses that funds can be sent to, and the rule by which a text is
//! taken for one: shielded first, transparent second.

use crate::base58check::base58check_payload;
use crate::base58check::DecodeError;
use crate::transparent::decode_transparent_address;
use crate::transparent::transparent_decoding;
use crate::transparent::TransparentAddress;
use crate::transparent::TransparentAddressView;
use sapling_crypto::PaymentAddress;
use vstd::prelude::*;
use vstd::std_specs::convert::FromSpecImpl;
#[allow(deprecated)]
use zcash_client_backend::encoding::decode_payment_address;
#[allow(deprecated)]
use zcash_client_backend::encoding::Bech32DecodeError;

verus! {

#[verifier::external_type_specification]
#[verifier::external_body]
pub struct ExPaymentAddress(PaymentAddress);

#[verifier::external_type_specification]
#[verifier::external_body]
pub struct ExBech32DecodeError(Bech32DecodeError);

/// The Sapling payment address that `text` encodes under the human-readable
/// prefix `hrp`, as `zcash_client_backend` decodes it, or `None` where it
/// reports an error.
pub uninterp spec fn sapling_decoding(hrp: Seq<char>, text: Seq<char>) -> Option<PaymentAddress>;

/// Calls `zcash_client_backend::encoding::decode_payment_address`, which is
/// `zcash_keys::encoding::decode_payment_address` under another path.
///
/// Trusted: the call is a function of the prefix and the text alone, and
/// `sapling_decoding` names what it returns. Nothing is claimed about which
/// texts decode, nor about the address that comes back.
#[verifier::external_body]
#[allow(deprecated)]
fn decode_sapling_address(hrp: &str, text: &str) -> (r: Result<PaymentAddress, Bech32DecodeError>)
    ensures
        match r {
            Ok(address) => sapling_decoding(hrp@, text@) == Some(address),
            Err(_) => sapling_decoding(hrp@, text@) is None,
        },
{
    decode_payment_address(hrp, text)
}

/// An address that funds can be sent to.
pub enum RecipientAddress {
    /// A Sapling payment address, held as the decoder produced it.
    Shielded(PaymentAddress),
    /// A transparent address.
    Transparent(TransparentAddress),
}

/// What a [`RecipientAddress`] stands for.
pub enum RecipientAddressView {
    Shielded(PaymentAddress),
    Transparent(TransparentAddressView),
}

impl View for RecipientAddress {
    type V = RecipientAddressView;

    open spec fn view(&self) -> RecipientAddressView {
        match *self {
            RecipientAddress::Shielded(address) => RecipientAddressView::Shielded(address),
            RecipientAddress::Transparent(address) => RecipientAddressView::Transparent(address@),
        }
    }
}

/// The recipient that two decoding attempts on one text give. A shielded
/// address wins over whatever the transparent attempt gave. Without one, a
/// transparent address is the recipient. An error of the transparent attempt
/// counts as no address.
pub open spec fn resolution(
    shielded: Option<PaymentAddress>,
    transparent: Result<Option<TransparentAddressView>, DecodeError>,
) -> Option<RecipientAddressView> {
    match shielded {
        Some(address) => Some(RecipientAddressView::Shielded(address)),
        None => match transparent {
            Ok(Some(address)) => Some(RecipientAddressView::Transparent(address)),
            _ => None,
        },
    }
}

/// The recipient that `text` names on a network with the given parameters.
pub open spec fn recipient_of(
    text: Seq<char>,
    hrp: Seq<char>,
    pubkey_version: Seq<u8>,
    script_version: Seq<u8>,
) -> Option<RecipientAddressView> {
    resolution(
        sapling_decoding(hrp, text),
        transparent_decoding(pubkey_version, script_version, text),
    )
}

impl FromSpecImpl<PaymentAddress> for RecipientAddress {
    open spec fn obeys_from_spec() -> bool {
        true
    }

    open spec fn from_spec(addr: PaymentAddress) -> Self {
        RecipientAddress::Shielded(addr)
    }
}

impl From<PaymentAddress> for RecipientAddress {
    fn from(addr: PaymentAddress) -> (r: Self) {
        RecipientAddress::Shielded(addr)
    }
}

impl FromSpecImpl<TransparentAddress> for RecipientAddress {
    open spec fn obeys_from_spec() -> bool {
        true
    }

    open spec fn from_spec(addr: TransparentAddress) -> Self {
        RecipientAddress::Transparent(addr)
    }
}

impl From<TransparentAddress> for RecipientAddress {
    fn from(addr: TransparentAddress) -> (r: Self) {
        RecipientAddress::Transparent(addr)
    }
}

impl RecipientAddress {
    /// Takes the outcome of a shielded decoding attempt for a recipient: the
    /// address where there is one, nothing where the decoder failed, whatever
    /// its reason.
    pub fn from_shielded_attempt(attempt: Result<PaymentAddress, Bech32DecodeError>) -> (r: Option<
        Self,
    >)
        ensures
            match attempt {
                Ok(address) => r matches Some(RecipientAddress::Shielded(a)) && a == address,
                Err(_) => r is None,
            },
    {
        match attempt {
            Ok(address) => Some(RecipientAddress::Shielded(address)),
            Err(_) => None,
        }
    }

    /// Takes the outcome of a transparent decoding attempt for a recipient:
    /// the address where there is one, nothing where the text names no
    /// address or is not Base58Check at all.
    pub fn from_transparent_attempt(attempt: Result<Option<TransparentAddress>, DecodeError>) -> (r:
        Option<Self>)
        ensures
            match attempt {
                Ok(Some(address)) => r matches Some(RecipientAddress::Transparent(a)) && a
                    == address,
                _ => r is None,
            },
    {
        match attempt {
            Ok(Some(address)) => Some(RecipientAddress::Transparent(address)),
            _ => None,
        }
    }

    /// Reads `s` as an address of the network whose parameters are given:
    /// the human-readable prefix of its Sapling addresses and the version
    /// prefixes of its two kinds of transparent address.
    ///
    /// `s` is tried as a Sapling address first. Only if that fails is it
    /// tried as a transparent address. Returns `None` where it is neither;
    /// why a decoder turned it down is not reported.
    pub fn from_str(
        s: &str,
        hrp_sapling_address: &str,
        b58_pubkey_address: [u8; 2],
        b58_script_address: [u8; 2],
    ) -> (r: Option<Self>)
        ensures
            match recipient_of(s@, hrp_sapling_address@, b58_pubkey_address@, b58_script_address@) {
                Some(view) => r matches Some(address) && address@ == view,
                None => r is None,
            },
    {
        match Self::from_shielded_attempt(decode_sapling_address(hrp_sapling_address, s)) {
            Some(address) => Some(address),
            None => Self::from_transparent_attempt(
                decode_transparent_address(
                    b58_pubkey_address.as_slice(),
                    b58_script_address.as_slice(),
                    s,
                ),
            ),
        }
    }
}

/// Text that decodes as a Sapling address under the network's prefix names
/// that very address, whatever it would be as a transparent address.
pub proof fn lemma_shielded_address_is_resolved(
    text: Seq<char>,
    hrp: Seq<char>,
    pubkey_version: Seq<u8>,
    script_version: Seq<u8>,
    address: PaymentAddress,
)
    requires
        sapling_decoding(hrp, text) == Some(address),
    ensures
        recipient_of(text, hrp, pubkey_version, script_version) == Some(
            RecipientAddressView::Shielded(address),
        ),
{
}

/// Text that is no Sapling address under the network's prefix names exactly
/// what it decodes to as a transparent address, and nothing where that
/// decoding fails.
pub proof fn lemma_transparent_address_is_resolved(
    text: Seq<char>,
    hrp: Seq<char>,
    pubkey_version: Seq<u8>,
    script_version: Seq<u8>,
)
    requires
        sapling_decoding(hrp, text) is None,
    ensures
        match transparent_decoding(pubkey_version, script_version, text) {
            Ok(Some(address)) => recipient_of(text, hrp, pubkey_version, script_version) == Some(
                RecipientAddressView::Transparent(address),
            ),
            _ => recipient_of(text, hrp, pubkey_version, script_version) is None,
        },
{
}

/// Text that is no Sapling address under the network's prefix, and that is
/// either not Base58Check or carries a payload that begins with neither
/// version prefix, names no recipient.
pub proof fn lemma_unmatched_text_is_no_recipient(
    text: Seq<char>,
    hrp: Seq<char>,
    pubkey_version: Seq<u8>,
    script_version: Seq<u8>,
)
    requires
        sapling_decoding(hrp, text) is None,
        base58check_payload(text) matches Some(payload) ==> !pubkey_version.is_prefix_of(payload)
            && !script_version.is_prefix_of(payload),
    ensures
        recipient_of(text, hrp, pubkey_version, script_version) is None,
{
}

} // verus!
