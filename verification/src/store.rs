//! The durable claim store, backed by a sled database.
//!
//! The database persists flat byte strings; everything decided over them
//! is verified here: the identity range gate, the key and record layouts
//! of [`crate::codec`], the per-chain partitioning of the claims key
//! space, and the mapping of every backend outcome into the error
//! taxonomy. Only the byte-level database calls themselves are trusted.
//! What a read returns depends on what is on disk, so the contracts below
//! state what holds of every outcome; the decoders carry the exact
//! contracts.

use vstd::prelude::*;
use crate::codec::{
    claims_tree_name, decode_claims_data, decode_user_info, encode_claims_data, encode_user_info,
    identity_key, users_tree_name,
};
use crate::dispatcher::TxResult;
use crate::error::{DispatchError, FaucetError};
use crate::faucet::PendingClaim;
use crate::model::{ClaimsData, UserInfo};
use crate::network::TypedChainId;

verus! {

#[verifier::external_type_specification]
#[verifier::external_body]
pub struct ExDb(sled::Db);

#[verifier::external_type_specification]
#[verifier::external_body]
pub struct ExTree(sled::Tree);

#[verifier::external_type_specification]
#[verifier::external_body]
pub struct ExSledError(sled::Error);

/// Relies on sled::Config::open (with a path, compression off): opens or
/// creates the database at that path.
#[verifier::external_body]
fn open_db(path: &String) -> Result<sled::Db, sled::Error> {
    sled::Config::new().use_compression(false).path(path.as_str()).open()
}

/// Relies on sled::Config::open with Config::temporary: opens a database
/// in a temporary directory that is removed on drop.
#[verifier::external_body]
fn open_temporary_db() -> Result<sled::Db, sled::Error> {
    sled::Config::new().temporary(true).open()
}

/// Relies on sled::Db::open_tree: opens or creates the tree of that
/// name, a keyspace disjoint from every other tree's.
#[verifier::external_body]
fn db_open_tree(db: &sled::Db, name: &Vec<u8>) -> Result<sled::Tree, sled::Error> {
    db.open_tree(name.as_slice())
}

/// Relies on sled::Tree::insert: sets the key to the value atomically
/// for that key.
#[verifier::external_body]
fn tree_insert(tree: &sled::Tree, key: &Vec<u8>, value: Vec<u8>) -> Result<(), sled::Error> {
    tree.insert(key.as_slice(), value).map(|_| ())
}

/// Relies on sled::Tree::get: returns the bytes stored under the key, if
/// any.
#[verifier::external_body]
fn tree_get(tree: &sled::Tree, key: &Vec<u8>) -> Result<Option<Vec<u8>>, sled::Error> {
    tree.get(key.as_slice()).map(|r| r.map(|v| v.to_vec()))
}

/// Converts an identity to the signed form the store's key layout is
/// bounded by: exactly the identities up to `i64::MAX` are storable, and
/// they convert value-preservingly, so identities round-trip exactly.
pub fn u64_to_i64(value: u64) -> (r: Result<i64, FaucetError>)
    ensures
        match r {
            Ok(i) => value <= i64::MAX as u64 && i == value,
            Err(e) => value > i64::MAX as u64 && e == FaucetError::InvalidIdentity,
        },
{
    if value <= 9223372036854775807u64 {
        Ok(value as i64)
    } else {
        Err(FaucetError::InvalidIdentity)
    }
}

/// Converts a stored signed identity back: exactly the non-negative
/// values convert, value-preservingly.
pub fn i64_to_u64(value: i64) -> (r: Result<u64, FaucetError>)
    ensures
        match r {
            Ok(u) => value >= 0 && u == value,
            Err(e) => value < 0 && e == FaucetError::InvalidIdentity,
        },
{
    if value >= 0 {
        Ok(value as u64)
    } else {
        Err(FaucetError::InvalidIdentity)
    }
}

/// A store that keeps user records and claim history in a sled database:
/// one tree for users, one tree per chain for claims. The backend locks
/// per key, so each insert below is atomic for its key.
pub struct SledAuthDb {
    db: sled::Db,
}

impl SledAuthDb {
    /// Opens the store at the given path.
    pub fn open(path: &String) -> (r: Result<SledAuthDb, FaucetError>)
        ensures
            r matches Err(e) ==> e == FaucetError::StorageError,
    {
        match open_db(path) {
            Ok(db) => Ok(SledAuthDb { db }),
            Err(_) => Err(FaucetError::StorageError),
        }
    }

    /// Opens a store in a temporary directory, removed when dropped.
    pub fn open_for_tests() -> (r: Result<SledAuthDb, FaucetError>)
        ensures
            r matches Err(e) ==> e == FaucetError::StorageError,
    {
        match open_temporary_db() {
            Ok(db) => Ok(SledAuthDb { db }),
            Err(_) => Err(FaucetError::StorageError),
        }
    }

    /// The tree that keeps user records.
    pub fn user_info_tree(&self) -> (r: Result<sled::Tree, FaucetError>)
        ensures
            r matches Err(e) ==> e == FaucetError::StorageError,
    {
        let name = users_tree_name();
        match db_open_tree(&self.db, &name) {
            Ok(t) => Ok(t),
            Err(_) => Err(FaucetError::StorageError),
        }
    }

    /// The tree that keeps one chain's claims. Tree names embed the full
    /// typed chain id, so no two chains — not even an EVM and a
    /// Substrate chain with equal numeric ids — ever share a keyspace,
    /// and enumerating one chain's claims never touches another's.
    pub fn claims_tree(&self, chain_id: TypedChainId) -> (r: Result<sled::Tree, FaucetError>)
        ensures
            r matches Err(e) ==> e == FaucetError::StorageError,
    {
        let name = claims_tree_name(chain_id);
        match db_open_tree(&self.db, &name) {
            Ok(t) => Ok(t),
            Err(_) => Err(FaucetError::StorageError),
        }
    }

    /// Persists one user record under its identity, whole, in the byte
    /// encoding of [`encode_user_info`]. Identities the key layout
    /// cannot represent are rejected before any I/O.
    pub fn put_user_info(&self, id: u64, value: &UserInfo) -> (r: Result<(), FaucetError>)
        ensures
            match r {
                Ok(_) => id <= i64::MAX as u64,
                Err(e) => e == FaucetError::InvalidIdentity || e == FaucetError::StorageError,
            },
            r == Err::<(), FaucetError>(FaucetError::InvalidIdentity) <==> id > i64::MAX as u64,
    {
        let _signed = match u64_to_i64(id) {
            Ok(i) => i,
            Err(e) => {
                return Err(e);
            },
        };
        let tree = self.user_info_tree()?;
        let key = identity_key(id);
        let bytes = encode_user_info(value);
        match tree_insert(&tree, &key, bytes) {
            Ok(_) => Ok(()),
            Err(_) => Err(FaucetError::StorageError),
        }
    }

    /// Reads the user record of an identity. Out-of-range identities are
    /// rejected before any I/O. Whatever the disk held: a well-formed
    /// record decodes exactly, by [`decode_user_info`]'s contract, and
    /// corrupt bytes surface as a serialization error, never as a
    /// record.
    pub fn get_user_info(&self, id: u64) -> (r: Result<Option<UserInfo>, FaucetError>)
        ensures
            match r {
                Ok(_) => id <= i64::MAX as u64,
                Err(e) => e == FaucetError::InvalidIdentity || e == FaucetError::StorageError || e
                    == FaucetError::SerializationError,
            },
            r == Err::<Option<UserInfo>, FaucetError>(FaucetError::InvalidIdentity) <==> id
                > i64::MAX as u64,
    {
        let _signed = match u64_to_i64(id) {
            Ok(i) => i,
            Err(e) => {
                return Err(e);
            },
        };
        let tree = self.user_info_tree()?;
        let key = identity_key(id);
        let row = match tree_get(&tree, &key) {
            Ok(row) => row,
            Err(_) => {
                return Err(FaucetError::StorageError);
            },
        };
        match row {
            None => Ok(None),
            Some(bytes) => match decode_user_info(&bytes) {
                Some(u) => Ok(Some(u)),
                None => Err(FaucetError::SerializationError),
            },
        }
    }

    /// Persists the claim record of `(id, typed_chain_id)`, overwriting
    /// any previous one: the stored value is always one coherent record,
    /// never a mix of two writes. The returned timestamp echoes what was
    /// written.
    pub fn put_last_claim_data(
        &self,
        id: u64,
        typed_chain_id: TypedChainId,
        claim: &ClaimsData,
    ) -> (r: Result<u64, FaucetError>)
        ensures
            match r {
                Ok(ts) => id <= i64::MAX as u64 && ts == claim.last_claimed_date,
                Err(e) => e == FaucetError::InvalidIdentity || e == FaucetError::StorageError,
            },
            r == Err::<u64, FaucetError>(FaucetError::InvalidIdentity) <==> id > i64::MAX as u64,
    {
        let _signed = match u64_to_i64(id) {
            Ok(i) => i,
            Err(e) => {
                return Err(e);
            },
        };
        let tree = self.claims_tree(typed_chain_id)?;
        let key = identity_key(id);
        let bytes = encode_claims_data(claim);
        match tree_insert(&tree, &key, bytes) {
            Ok(_) => Ok(claim.last_claimed_date),
            Err(_) => Err(FaucetError::StorageError),
        }
    }

    /// Reads the claim record of `(id, typed_chain_id)`: `None` when the
    /// identity never claimed on that chain. Out-of-range identities are
    /// rejected before any I/O; corrupt bytes surface as a
    /// serialization error, never as a record.
    pub fn get_last_claim_data(&self, id: u64, typed_chain_id: TypedChainId) -> (r: Result<
        Option<ClaimsData>,
        FaucetError,
    >)
        ensures
            match r {
                Ok(_) => id <= i64::MAX as u64,
                Err(e) => e == FaucetError::InvalidIdentity || e == FaucetError::StorageError || e
                    == FaucetError::SerializationError,
            },
            r == Err::<Option<ClaimsData>, FaucetError>(FaucetError::InvalidIdentity) <==> id
                > i64::MAX as u64,
    {
        let _signed = match u64_to_i64(id) {
            Ok(i) => i,
            Err(e) => {
                return Err(e);
            },
        };
        let tree = self.claims_tree(typed_chain_id)?;
        let key = identity_key(id);
        let row = match tree_get(&tree, &key) {
            Ok(row) => row,
            Err(_) => {
                return Err(FaucetError::StorageError);
            },
        };
        match row {
            None => Ok(None),
            Some(bytes) => match decode_claims_data(&bytes) {
                Some(c) => Ok(Some(c)),
                None => Err(FaucetError::SerializationError),
            },
        }
    }

    /// Settles a dispatched claim against the durable store. A failed
    /// transfer is propagated unchanged and the store is never touched,
    /// so the identity may retry at once. After a successful transfer
    /// the claim record is written; if that write fails, the transfer
    /// already happened, and the distinct paid-but-not-recorded error is
    /// surfaced so operators can reconcile — never the transfer error.
    pub fn finish_claim_durable(
        &self,
        pending: &PendingClaim,
        outcome: Result<TxResult, DispatchError>,
    ) -> (r: Result<TxResult, FaucetError>)
        requires
            pending.identity <= i64::MAX as u64,
        ensures
            match outcome {
                Err(e) => r == Err::<TxResult, FaucetError>(
                    FaucetError::TransferFailed { reason: e },
                ),
                Ok(tx) => match r {
                    Ok(t) => t == tx,
                    Err(e) => e == FaucetError::PaidButNotRecorded,
                },
            },
    {
        match outcome {
            Err(e) => Err(FaucetError::TransferFailed { reason: e }),
            Ok(tx) => {
                let record = ClaimsData {
                    identity: pending.identity,
                    address: pending.destination.to_universal(),
                    last_claimed_date: pending.now,
                };
                match self.put_last_claim_data(pending.identity, pending.chain, &record) {
                    Ok(_) => Ok(tx),
                    Err(_) => Err(FaucetError::PaidButNotRecorded),
                }
            },
        }
    }
}

} // verus!
