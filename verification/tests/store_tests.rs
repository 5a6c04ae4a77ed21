use webb_faucet::address::{MultiAddress, UniversalWalletAddress};
use webb_faucet::dispatcher::TxResult;
use webb_faucet::error::{DispatchError, FaucetError};
use webb_faucet::faucet::PendingClaim;
use webb_faucet::model::{ClaimsData, UserInfo};
use webb_faucet::network::TypedChainId;
use webb_faucet::store::{i64_to_u64, u64_to_i64, SledAuthDb};

#[test]
fn identity_conversions_round_trip() {
    assert_eq!(u64_to_i64(0), Ok(0));
    assert_eq!(u64_to_i64(42), Ok(42));
    assert_eq!(u64_to_i64(i64::MAX as u64), Ok(i64::MAX));
    assert_eq!(u64_to_i64((i64::MAX as u64) + 1), Err(FaucetError::InvalidIdentity));
    assert_eq!(u64_to_i64(u64::MAX), Err(FaucetError::InvalidIdentity));

    assert_eq!(i64_to_u64(0), Ok(0));
    assert_eq!(i64_to_u64(i64::MAX), Ok(i64::MAX as u64));
    assert_eq!(i64_to_u64(-1), Err(FaucetError::InvalidIdentity));
}

#[test]
fn claim_data_persists_and_reads_back() {
    let db = SledAuthDb::open_for_tests().expect("temp db");
    let chain = TypedChainId::Evm(5);
    assert_eq!(db.get_last_claim_data(42, chain), Ok(None));

    let claim = ClaimsData {
        identity: 42,
        address: UniversalWalletAddress::Ethereum([0x11u8; 20]),
        last_claimed_date: 1_700_000_000_000,
    };
    let ts = db.put_last_claim_data(42, chain, &claim).expect("write");
    assert_eq!(ts, 1_700_000_000_000);
    assert_eq!(db.get_last_claim_data(42, chain), Ok(Some(claim)));

    // overwrite, not append: the newer record replaces the older
    let newer = ClaimsData { last_claimed_date: 1_700_000_100_000, ..claim };
    db.put_last_claim_data(42, chain, &newer).expect("overwrite");
    assert_eq!(db.get_last_claim_data(42, chain), Ok(Some(newer)));
}

#[test]
fn claims_partition_by_chain_family() {
    let db = SledAuthDb::open_for_tests().expect("temp db");
    let evm = TypedChainId::Evm(5);
    let sub = TypedChainId::Substrate(5);
    let claim = ClaimsData {
        identity: 42,
        address: UniversalWalletAddress::Ethereum([0x11u8; 20]),
        last_claimed_date: 7,
    };
    db.put_last_claim_data(42, evm, &claim).expect("write evm");
    // same numeric id in the other family is another keyspace
    assert_eq!(db.get_last_claim_data(42, sub), Ok(None));
    // and another evm chain is another keyspace too
    assert_eq!(db.get_last_claim_data(42, TypedChainId::Evm(50)), Ok(None));
    assert_eq!(db.get_last_claim_data(42, evm), Ok(Some(claim)));
}

#[test]
fn user_info_persists_and_reads_back() {
    let db = SledAuthDb::open_for_tests().expect("temp db");
    assert_eq!(db.get_user_info(42), Ok(None));
    let user = UserInfo::Twitter {
        id: 42,
        handle: String::from("alice"),
        address: UniversalWalletAddress::Substrate([0x22u8; 32]),
    };
    db.put_user_info(42, &user).expect("write");
    assert_eq!(db.get_user_info(42), Ok(Some(user)));
}

#[test]
fn out_of_range_identities_rejected_before_io() {
    let db = SledAuthDb::open_for_tests().expect("temp db");
    let too_big = (i64::MAX as u64) + 1;
    assert_eq!(
        db.get_last_claim_data(too_big, TypedChainId::Evm(5)),
        Err(FaucetError::InvalidIdentity)
    );
    let claim = ClaimsData {
        identity: too_big,
        address: UniversalWalletAddress::Unknown,
        last_claimed_date: 0,
    };
    assert_eq!(
        db.put_last_claim_data(too_big, TypedChainId::Evm(5), &claim),
        Err(FaucetError::InvalidIdentity)
    );
    assert_eq!(db.get_user_info(too_big), Err(FaucetError::InvalidIdentity));
    let user = UserInfo::Twitter {
        id: too_big,
        handle: String::new(),
        address: UniversalWalletAddress::Unknown,
    };
    assert_eq!(db.put_user_info(too_big, &user), Err(FaucetError::InvalidIdentity));
}

#[test]
fn open_at_impossible_path_is_a_storage_error() {
    let path = String::from("/dev/null/not-a-directory/db");
    match SledAuthDb::open(&path) {
        Err(FaucetError::StorageError) => {}
        Err(other) => panic!("expected a storage error, got {:?}", other),
        Ok(_) => panic!("opening under /dev/null must fail"),
    }
}

#[test]
fn durable_finish_success_writes_record() {
    let db = SledAuthDb::open_for_tests().expect("temp db");
    let pending = PendingClaim {
        identity: 42,
        chain: TypedChainId::Evm(5),
        destination: MultiAddress::Ethereum([0x33u8; 20]),
        now: 123_456,
    };
    let tx = TxResult::Evm { status: true, tx_hash: [6u8; 32] };
    let r = db.finish_claim_durable(&pending, Ok(tx));
    assert_eq!(r, Ok(tx));
    let rec = db
        .get_last_claim_data(42, TypedChainId::Evm(5))
        .expect("read")
        .expect("record written");
    assert_eq!(rec.identity, 42);
    assert_eq!(rec.address, UniversalWalletAddress::Ethereum([0x33u8; 20]));
    assert_eq!(rec.last_claimed_date, 123_456);
}

#[test]
fn durable_finish_failure_leaves_store_untouched() {
    let db = SledAuthDb::open_for_tests().expect("temp db");
    let pending = PendingClaim {
        identity: 42,
        chain: TypedChainId::Evm(5),
        destination: MultiAddress::Ethereum([0x33u8; 20]),
        now: 123_456,
    };
    let r = db.finish_claim_durable(&pending, Err(DispatchError::NoReceipt));
    assert_eq!(r, Err(FaucetError::TransferFailed { reason: DispatchError::NoReceipt }));
    assert_eq!(db.get_last_claim_data(42, TypedChainId::Evm(5)), Ok(None));
}
