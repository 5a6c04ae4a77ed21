use webb_faucet::address::{MultiAddress, UniversalWalletAddress};
use webb_faucet::auth::{parse_bearer_token, trim_ws, TwitterBearerTokenError};
use webb_faucet::config::{
    default_time_to_wait_between_claims, default_token_amount, default_verify_following_webb,
    get_evm_rpc_url, get_evm_token_address, get_substrate_rpc_url,
};
use webb_faucet::error::{error_code_and_status, FaucetError, FaucetErrorCode};
use webb_faucet::hexutil::{convert_hex_to_bytes, decode_hex, HexError};
use webb_faucet::model::UserInfo;
use webb_faucet::strutil::str_eq;

#[test]
fn address_accessors() {
    let eth = UniversalWalletAddress::Ethereum([1u8; 20]);
    let sub = UniversalWalletAddress::Substrate([2u8; 32]);
    let unk = UniversalWalletAddress::Unknown;
    assert!(eth.is_ethereum() && !eth.is_substrate() && !eth.is_unknown());
    assert!(sub.is_substrate() && !sub.is_ethereum() && !sub.is_unknown());
    assert!(unk.is_unknown() && !unk.is_ethereum() && !unk.is_substrate());
    assert_eq!(eth.as_ethereum(), Some([1u8; 20]));
    assert_eq!(eth.as_substrate(), None);
    assert_eq!(sub.as_substrate(), Some([2u8; 32]));
    assert_eq!(sub.as_ethereum(), None);

    let m_eth = MultiAddress::Ethereum([1u8; 20]);
    let m_sub = MultiAddress::Substrate([2u8; 32]);
    assert!(m_eth.is_ethereum() && !m_eth.is_substrate());
    assert!(m_sub.is_substrate() && !m_sub.is_ethereum());
    assert_eq!(m_eth.ethereum(), Some(&[1u8; 20]));
    assert_eq!(m_eth.substrate(), None);
    assert_eq!(m_sub.substrate(), Some(&[2u8; 32]));
    assert_eq!(m_eth.to_universal(), eth);
    assert_eq!(m_sub.to_universal(), sub);
}

#[test]
fn user_info_accessors() {
    let u = UserInfo::Twitter {
        id: 42,
        handle: String::from("alice"),
        address: UniversalWalletAddress::Ethereum([1u8; 20]),
    };
    assert_eq!(u.id(), 42);
    assert_eq!(u.name(), String::from("alice"));
    assert_eq!(u.address(), UniversalWalletAddress::Ethereum([1u8; 20]));
}

#[test]
fn hex_decoding_exact() {
    assert_eq!(decode_hex(""), Some(vec![]));
    assert_eq!(decode_hex("00ff10Ab"), Some(vec![0x00, 0xFF, 0x10, 0xAB]));
    assert_eq!(decode_hex("0"), None);
    assert_eq!(decode_hex("zz"), None);

    let full = "0x00112233445566778899aabbccddeeff00112233";
    let bytes = convert_hex_to_bytes(full).expect("20 bytes");
    assert_eq!(bytes[0], 0x00);
    assert_eq!(bytes[1], 0x11);
    assert_eq!(bytes[19], 0x33);
    // without the prefix too
    assert_eq!(convert_hex_to_bytes(&full[2..]), Ok(bytes));
    // wrong length: the original default of sixteen zero bytes
    assert_eq!(
        convert_hex_to_bytes("0x00000000000000000000000000000000"),
        Err(HexError::WrongLength)
    );
    assert_eq!(convert_hex_to_bytes("0xzz"), Err(HexError::InvalidHex));
}

#[test]
fn config_defaults() {
    assert_eq!(default_token_amount(), 20);
    assert!(default_verify_following_webb());
    assert_eq!(default_time_to_wait_between_claims(false), 86_400_000);
    assert_eq!(default_time_to_wait_between_claims(true), 0);
}

#[test]
fn rpc_url_lookup() {
    let rpc = vec![
        (5u64, vec![String::from("https://rpc.goerli.example"), String::from("backup")]),
        (1287u64, vec![String::from("https://rpc.moonbase.example")]),
    ];
    assert_eq!(get_evm_rpc_url(&rpc, 5), "https://rpc.goerli.example");
    assert_eq!(get_evm_rpc_url(&rpc, 1287), "https://rpc.moonbase.example");
    assert_eq!(get_evm_rpc_url(&rpc, 999), "http://localhost:8545");
    assert_eq!(
        get_substrate_rpc_url(1081),
        "wss://tangle-standalone-archive.webb.tools:443"
    );
}

#[test]
fn token_address_lookup() {
    let tokens = vec![
        (5u64, String::from("0x00112233445566778899aabbccddeeff00112233")),
        (7u64, String::from("0xbad")),
    ];
    let got = get_evm_token_address(&tokens, 5);
    assert_eq!(got[0], 0x00);
    assert_eq!(got[19], 0x33);
    // malformed configuration and missing chains both fall back to zero
    assert_eq!(get_evm_token_address(&tokens, 7), [0u8; 20]);
    assert_eq!(get_evm_token_address(&tokens, 999), [0u8; 20]);
}

#[test]
fn error_codes_and_statuses() {
    assert_eq!(FaucetErrorCode::Oauth2InvalidUri.code(), 100000);
    assert_eq!(FaucetErrorCode::Oauth2ExchangeFailure.code(), 100001);
    assert_eq!(FaucetErrorCode::Oauth2Unknown.code(), 100002);
    assert_eq!(FaucetErrorCode::DatabaseError.code(), 200000);
    assert_eq!(FaucetErrorCode::DataSerializationError.code(), 200001);
    assert_eq!(FaucetErrorCode::TwitterApiError.code(), 300000);
    assert_eq!(FaucetErrorCode::CustomError.code(), 400000);

    assert_eq!(
        error_code_and_status(&FaucetError::StorageError),
        (FaucetErrorCode::DatabaseError, 500)
    );
    assert_eq!(
        error_code_and_status(&FaucetError::SerializationError),
        (FaucetErrorCode::DataSerializationError, 500)
    );
    assert_eq!(
        error_code_and_status(&FaucetError::CooldownActive { remaining_ms: 1 }),
        (FaucetErrorCode::CustomError, 400)
    );
    assert_eq!(
        error_code_and_status(&FaucetError::PaidButNotRecorded),
        (FaucetErrorCode::CustomError, 400)
    );
}

#[test]
fn string_helpers() {
    assert!(str_eq("abc", "abc"));
    assert!(!str_eq("abc", "abd"));
    assert!(!str_eq("abc", "abcd"));
    assert!(str_eq("", ""));
    assert_eq!(trim_ws("  hello \t\r\n"), "hello");
    assert_eq!(trim_ws("hello"), "hello");
    assert_eq!(trim_ws("   "), "");
}

#[test]
fn bearer_token_extraction() {
    let ok = parse_bearer_token(Some("Bearer abc123")).expect("token");
    assert_eq!(ok.token(), "abc123");
    let padded = parse_bearer_token(Some("  Bearer xyz  ")).expect("token");
    assert_eq!(padded.token(), "xyz");
    assert_eq!(parse_bearer_token(None), Err(TwitterBearerTokenError::Missing));
    assert_eq!(
        parse_bearer_token(Some("Basic abc")),
        Err(TwitterBearerTokenError::Malformed)
    );
    assert_eq!(parse_bearer_token(Some("")), Err(TwitterBearerTokenError::Malformed));
}
