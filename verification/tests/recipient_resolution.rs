#![allow(deprecated)]

use base58::FromBase58;
use base58::ToBase58;
use recipient_address::base58check::checksum_matches;
use recipient_address::base58check::count_leading_ones;
use recipient_address::base58check::decode_base58;
use recipient_address::base58check::decode_base58check;
use recipient_address::base58check::double_sha256_digest;
use recipient_address::base58check::starts_with;
use recipient_address::base58check::strip_checksum;
use recipient_address::base58check::zero_padded;
use recipient_address::base58check::DecodeError;
use recipient_address::recipient::RecipientAddress;
use recipient_address::transparent::TransparentAddress;
use sapling_crypto::PaymentAddress;
use sha2::Digest;
use sha2::Sha256;
use zcash_client_backend::encoding::decode_payment_address;
use zcash_client_backend::encoding::encode_payment_address;
use zcash_client_backend::encoding::encode_transparent_address;
use zcash_client_backend::encoding::Bech32DecodeError;

const TESTNET_HRP: &str = "ztestsapling";
const MAINNET_HRP: &str = "zs";
const TESTNET_PUBKEY: [u8; 2] = [0x1d, 0x25];
const TESTNET_SCRIPT: [u8; 2] = [0x1c, 0xba];
const TESTNET_SHIELDED: &str =
    "ztestsapling1qqqqqqqqqqqqqqqqqqcguyvaw2vjk4sdyeg0lc970u659lvhqq7t0np6hlup5lusxle75ss7jnk";

fn testnet_payment_address() -> PaymentAddress {
    PaymentAddress::from_bytes(&[
        0x00, 0x00, 0x00, 0x00, 0x00, 0x00, 0x00, 0x00, 0x00, 0x00, 0x00, 0x30, 0x8e, 0x11, 0x9d,
        0x72, 0x99, 0x2b, 0x56, 0x0d, 0x26, 0x50, 0xff, 0xe0, 0xbe, 0x7f, 0x35, 0x42, 0xfd, 0x97,
        0x00, 0x3c, 0xb7, 0xcc, 0x3a, 0xbf, 0xf8, 0x1a, 0x7f, 0x90, 0x37, 0xf3, 0xea,
    ])
    .unwrap()
}

fn with_checksum(payload: &[u8]) -> Vec<u8> {
    let digest = Sha256::digest(Sha256::digest(payload));
    let mut bytes = payload.to_vec();
    bytes.extend_from_slice(&digest[..4]);
    bytes
}

fn resolve_on_testnet(text: &str) -> Option<RecipientAddress> {
    RecipientAddress::from_str(text, TESTNET_HRP, TESTNET_PUBKEY, TESTNET_SCRIPT)
}

#[test]
fn shielded_text_resolves_to_the_decoded_payment_address() {
    let expected = decode_payment_address(TESTNET_HRP, TESTNET_SHIELDED).unwrap();
    assert!(expected == testnet_payment_address());
    match resolve_on_testnet(TESTNET_SHIELDED) {
        Some(RecipientAddress::Shielded(address)) => assert!(address == expected),
        _ => panic!("the text is a shielded address"),
    }
}

#[test]
fn encoded_payment_address_resolves_to_itself() {
    let address = testnet_payment_address();
    let text = encode_payment_address(MAINNET_HRP, &address);
    match RecipientAddress::from_str(&text, MAINNET_HRP, [0x1c, 0xb8], [0x1c, 0xbd]) {
        Some(RecipientAddress::Shielded(decoded)) => assert!(decoded == address),
        _ => panic!("the text is a shielded address"),
    }
}

#[test]
fn shielded_text_under_another_prefix_is_no_recipient() {
    assert!(RecipientAddress::from_str(
        TESTNET_SHIELDED,
        MAINNET_HRP,
        TESTNET_PUBKEY,
        TESTNET_SCRIPT
    )
    .is_none());
}

#[test]
fn transparent_pubkey_text_resolves_to_transparent() {
    match resolve_on_testnet("tm9iMLAuYMzJ6jtFLcA7rzUmfreGuKvr7Ma") {
        Some(RecipientAddress::Transparent(address)) => {
            assert_eq!(address, TransparentAddress::PublicKeyHash([0; 20]))
        }
        _ => panic!("the text is a transparent address"),
    }
}

#[test]
fn transparent_script_text_resolves_to_transparent() {
    match resolve_on_testnet("t26YoyZ1iPgiMEWL4zGUm74eVWfhyDMXzY2") {
        Some(RecipientAddress::Transparent(address)) => {
            assert_eq!(address, TransparentAddress::ScriptHash([0; 20]))
        }
        _ => panic!("the text is a transparent address"),
    }
}

#[test]
fn text_of_neither_family_is_no_recipient() {
    assert!(resolve_on_testnet("").is_none());
    assert!(resolve_on_testnet("not an address").is_none());
    assert!(resolve_on_testnet("tm9iMLAuYMzJ6jtFLcA7rzUmfreGuKvr7Mb").is_none());
    assert!(resolve_on_testnet(&"1".repeat(200)).is_none());
}

#[test]
fn transparent_text_of_another_network_is_no_recipient() {
    assert!(RecipientAddress::from_str(
        "tm9iMLAuYMzJ6jtFLcA7rzUmfreGuKvr7Ma",
        MAINNET_HRP,
        [0x1c, 0xb8],
        [0x1c, 0xbd]
    )
    .is_none());
}

#[test]
fn transparent_text_with_wrong_hash_length_is_no_recipient() {
    let mut payload = TESTNET_PUBKEY.to_vec();
    payload.extend_from_slice(&[7u8; 19]);
    let text = with_checksum(&payload).to_base58();
    assert!(resolve_on_testnet(&text).is_none());
}

#[test]
fn shielded_attempt_is_taken_as_it_came() {
    let address = testnet_payment_address();
    match RecipientAddress::from_shielded_attempt(Ok(address)) {
        Some(RecipientAddress::Shielded(held)) => assert!(held == address),
        _ => panic!("a decoded address is a recipient"),
    }
    assert!(RecipientAddress::from_shielded_attempt(Err(Bech32DecodeError::ReadError)).is_none());
}

#[test]
fn transparent_attempt_is_taken_as_it_came() {
    let address = TransparentAddress::ScriptHash([9; 20]);
    match RecipientAddress::from_transparent_attempt(Ok(Some(address))) {
        Some(RecipientAddress::Transparent(held)) => assert_eq!(held, address),
        _ => panic!("a decoded address is a recipient"),
    }
    assert!(RecipientAddress::from_transparent_attempt(Ok(None)).is_none());
    assert!(
        RecipientAddress::from_transparent_attempt(Err(DecodeError::InvalidEncoding)).is_none()
    );
}

#[test]
fn recipient_is_made_from_either_kind_of_address() {
    let shielded = testnet_payment_address();
    match RecipientAddress::from(shielded) {
        RecipientAddress::Shielded(held) => assert!(held == shielded),
        RecipientAddress::Transparent(_) => panic!("made from a shielded address"),
    }
    let transparent = TransparentAddress::PublicKeyHash([3; 20]);
    match RecipientAddress::from(transparent) {
        RecipientAddress::Transparent(held) => assert_eq!(held, transparent),
        RecipientAddress::Shielded(_) => panic!("made from a transparent address"),
    }
}

#[test]
fn text_written_by_the_wallet_encoder_decodes_to_the_same_address() {
    let hash = [0xabu8; 20];
    let pubkey = zcash_transparent::address::TransparentAddress::PublicKeyHash(hash);
    let script = zcash_transparent::address::TransparentAddress::ScriptHash(hash);
    let pubkey_text = encode_transparent_address(&TESTNET_PUBKEY, &TESTNET_SCRIPT, &pubkey);
    let script_text = encode_transparent_address(&TESTNET_PUBKEY, &TESTNET_SCRIPT, &script);
    match resolve_on_testnet(&pubkey_text) {
        Some(RecipientAddress::Transparent(address)) => {
            assert_eq!(address, TransparentAddress::PublicKeyHash(hash))
        }
        _ => panic!("the text is a transparent address"),
    }
    match resolve_on_testnet(&script_text) {
        Some(RecipientAddress::Transparent(address)) => {
            assert_eq!(address, TransparentAddress::ScriptHash(hash))
        }
        _ => panic!("the text is a transparent address"),
    }
}

#[test]
fn double_digest_of_the_empty_payload_is_the_known_one() {
    let digest = double_sha256_digest(&[]);
    assert_eq!(&digest[..4], &[0x5d, 0xf6, 0xe0, 0xe2]);
    assert_eq!(digest.to_vec(), Sha256::digest(Sha256::digest([])).to_vec());
    assert_ne!(&digest[..], &[0u8; 32][..]);
}

#[test]
fn checksum_is_the_first_four_bytes_of_the_digest() {
    let mut digest = [0u8; 32];
    digest[0] = 0xde;
    digest[1] = 0xad;
    digest[2] = 0xbe;
    digest[3] = 0xef;
    digest[4] = 0x01;
    assert!(checksum_matches(&digest, &[0xde, 0xad, 0xbe, 0xef]));
    assert!(!checksum_matches(&digest, &[0xde, 0xad, 0xbe, 0xee]));
    assert!(!checksum_matches(&digest, &[0xde, 0xad, 0xbe]));
    assert!(!checksum_matches(&digest, &[0xde, 0xad, 0xbe, 0xef, 0x01]));
    assert!(!checksum_matches(&digest, &[]));
}

#[test]
fn starts_with_compares_the_leading_bytes() {
    assert!(starts_with(&[1, 2, 3], &[1, 2]));
    assert!(starts_with(&[1, 2, 3], &[1, 2, 3]));
    assert!(starts_with(&[1, 2, 3], &[]));
    assert!(starts_with(&[], &[]));
    assert!(!starts_with(&[1, 2, 3], &[1, 3]));
    assert!(!starts_with(&[1, 2], &[1, 2, 3]));
    assert!(!starts_with(&[], &[1]));
}

#[test]
fn strip_checksum_returns_the_payload_of_checked_bytes() {
    let payload = [0x1cu8, 0xb8, 0x01, 0x02];
    let checked = with_checksum(&payload);
    assert_eq!(strip_checksum(&checked), Some(payload.to_vec()));
    let mut broken = checked.clone();
    broken[7] ^= 0x01;
    assert_eq!(strip_checksum(&broken), None);
    let mut damaged = checked.clone();
    damaged[0] ^= 0x01;
    assert_eq!(strip_checksum(&damaged), None);
    assert_eq!(strip_checksum(&checked[..3]), None);
    assert_eq!(strip_checksum(&[]), None);
    assert_eq!(strip_checksum(&with_checksum(&[])), Some(Vec::new()));
}

#[test]
fn decode_base58check_returns_the_payload_of_the_text() {
    let payload = [0x00u8, 0x01, 0x02, 0x03, 0xff];
    let text = with_checksum(&payload).to_base58();
    assert_eq!(decode_base58check(&text), Ok(payload.to_vec()));
    assert_eq!(decode_base58check("0OIl"), Err(DecodeError::InvalidEncoding));
    assert_eq!(decode_base58check(&payload.to_base58()), Err(DecodeError::InvalidEncoding));
    assert_eq!(decode_base58check(&"2".repeat(133)), Err(DecodeError::InvalidEncoding));
}

#[test]
fn leading_ones_are_counted() {
    assert_eq!(count_leading_ones(""), 0);
    assert_eq!(count_leading_ones("1"), 1);
    assert_eq!(count_leading_ones("111"), 3);
    assert_eq!(count_leading_ones("11Z1"), 2);
    assert_eq!(count_leading_ones("Z11"), 0);
    assert_eq!(count_leading_ones("1\u{e9}1"), 1);
}

#[test]
fn zero_padding_puts_zero_bytes_in_front() {
    assert_eq!(zero_padded(0, &[]), Vec::<u8>::new());
    assert_eq!(zero_padded(0, &[7, 8]), vec![7, 8]);
    assert_eq!(zero_padded(2, &[7, 8]), vec![0, 0, 7, 8]);
    assert_eq!(zero_padded(3, &[]), vec![0, 0, 0]);
}

#[test]
fn decode_base58_reads_leading_ones_as_zero_bytes() {
    assert_eq!(decode_base58(""), Some(Vec::new()));
    assert_eq!(decode_base58("ZiCa"), Some(b"abc".to_vec()));
    assert_eq!(decode_base58("1ZiCa"), Some(b"\0abc".to_vec()));
    assert_eq!(decode_base58("1111ZiCa"), Some(b"\0\0\0\0abc".to_vec()));
    assert_eq!(decode_base58("11"), Some(vec![0, 0]));
    assert_eq!(decode_base58(&"1".repeat(500)), Some(vec![0u8; 500]));
    assert_eq!(decode_base58("1Zi0a"), None);
    assert_eq!(decode_base58("Zi1Ca"), "Zi1Ca".from_base58().ok());
    assert!(decode_base58("Zi1Ca").is_some());
}
