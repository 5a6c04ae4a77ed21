use webb_faucet::address::UniversalWalletAddress;
use webb_faucet::codec::{
    claims_tree_name, decode_claims_data, decode_user_info, encode_claims_data, encode_user_info,
    identity_key, u64_to_decimal, users_tree_name,
};
use webb_faucet::model::{ClaimsData, UserInfo};
use webb_faucet::network::TypedChainId;

#[test]
fn decimal_digits_exact() {
    assert_eq!(u64_to_decimal(0), b"0".to_vec());
    assert_eq!(u64_to_decimal(7), b"7".to_vec());
    assert_eq!(u64_to_decimal(10), b"10".to_vec());
    assert_eq!(u64_to_decimal(1081), b"1081".to_vec());
    assert_eq!(u64_to_decimal(3884533461), b"3884533461".to_vec());
    assert_eq!(u64_to_decimal(u64::MAX), b"18446744073709551615".to_vec());
}

#[test]
fn tree_names_partition_by_family() {
    assert_eq!(claims_tree_name(TypedChainId::Evm(5)), b"claims-evm-5".to_vec());
    assert_eq!(claims_tree_name(TypedChainId::Substrate(5)), b"claims-sub-5".to_vec());
    assert_ne!(
        claims_tree_name(TypedChainId::Evm(5)),
        claims_tree_name(TypedChainId::Substrate(5))
    );
    assert_ne!(
        claims_tree_name(TypedChainId::Evm(5)),
        claims_tree_name(TypedChainId::Evm(50))
    );
    assert_eq!(users_tree_name(), b"users".to_vec());
}

#[test]
fn identity_keys_injective() {
    assert_eq!(identity_key(0).len(), 8);
    assert_ne!(identity_key(42), identity_key(43));
    assert_ne!(identity_key(1), identity_key(1 << 32));
    assert_eq!(identity_key(42), identity_key(42));
}

#[test]
fn claims_data_round_trip_ethereum() {
    let c = ClaimsData {
        identity: 42,
        address: UniversalWalletAddress::Ethereum([7u8; 20]),
        last_claimed_date: 1_700_000_000_000,
    };
    let bytes = encode_claims_data(&c);
    assert_eq!(bytes.len(), 37);
    let back = decode_claims_data(&bytes).expect("well-formed record");
    assert_eq!(back, c);
}

#[test]
fn claims_data_round_trip_substrate_and_unknown() {
    let c1 = ClaimsData {
        identity: u64::MAX,
        address: UniversalWalletAddress::Substrate([9u8; 32]),
        last_claimed_date: 0,
    };
    let b1 = encode_claims_data(&c1);
    assert_eq!(b1.len(), 49);
    assert_eq!(decode_claims_data(&b1), Some(c1));

    let c2 = ClaimsData {
        identity: 0,
        address: UniversalWalletAddress::Unknown,
        last_claimed_date: 1,
    };
    let b2 = encode_claims_data(&c2);
    assert_eq!(b2.len(), 17);
    assert_eq!(decode_claims_data(&b2), Some(c2));
}

#[test]
fn claims_data_rejects_corrupt_bytes() {
    assert_eq!(decode_claims_data(&vec![]), None);
    assert_eq!(decode_claims_data(&vec![0u8; 16]), None);
    // valid length for a tag, wrong tag byte
    let mut bad = vec![0u8; 37];
    bad[16] = 9;
    assert_eq!(decode_claims_data(&bad), None);
    // tag says unknown address but trailing bytes follow
    let mut mixed = vec![0u8; 18];
    mixed[16] = 0;
    assert_eq!(decode_claims_data(&mixed), None);
    // tag says ethereum but the length fits substrate
    let mut short = vec![0u8; 49];
    short[16] = 1;
    assert_eq!(decode_claims_data(&short), None);
}

#[test]
fn user_info_round_trip() {
    let u = UserInfo::Twitter {
        id: 42,
        handle: String::from("alice"),
        address: UniversalWalletAddress::Ethereum([1u8; 20]),
    };
    let bytes = encode_user_info(&u);
    let back = decode_user_info(&bytes).expect("well-formed record");
    assert_eq!(back, u);
}

#[test]
fn user_info_round_trip_unicode_handle() {
    let u = UserInfo::Twitter {
        id: 7,
        handle: String::from("ålice\u{1F600}"),
        address: UniversalWalletAddress::Unknown,
    };
    let bytes = encode_user_info(&u);
    let back = decode_user_info(&bytes).expect("well-formed record");
    assert_eq!(back, u);

    let empty = UserInfo::Twitter {
        id: 0,
        handle: String::new(),
        address: UniversalWalletAddress::Substrate([3u8; 32]),
    };
    let b2 = encode_user_info(&empty);
    assert_eq!(decode_user_info(&b2), Some(empty));
}

#[test]
fn user_info_rejects_corrupt_bytes() {
    assert_eq!(decode_user_info(&vec![]), None);
    assert_eq!(decode_user_info(&vec![0u8; 8]), None);
    // invalid UTF-8 in the handle tail
    let mut bad = vec![0u8; 9];
    bad[8] = 0;
    bad.push(0xFF);
    assert_eq!(decode_user_info(&bad), None);
    // unknown tag
    let mut badtag = vec![0u8; 9];
    badtag[8] = 7;
    assert_eq!(decode_user_info(&badtag), None);
}
