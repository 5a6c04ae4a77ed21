//! User identities and claim records.
//!
//! Timestamps throughout the crate are milliseconds since the Unix epoch,
//! as an unsigned 64-bit value.

use vstd::prelude::*;
use crate::address::UniversalWalletAddress;

verus! {

/// An authenticated user, as resolved by the identity provider.
#[derive(Clone, Debug, PartialEq, Eq)]
pub enum UserInfo {
    Twitter { id: u64, handle: String, address: UniversalWalletAddress },
}

impl UserInfo {
    /// The stable numeric identity of the user.
    pub fn id(&self) -> (r: u64)
        ensures
            r == self.spec_id(),
    {
        match self {
            Self::Twitter { id, .. } => *id,
        }
    }

    /// The identity carried by the record.
    pub open spec fn spec_id(&self) -> u64 {
        match self {
            UserInfo::Twitter { id, .. } => *id,
        }
    }

    /// The user's display handle.
    pub fn name(&self) -> (r: String)
        ensures
            r@ == self.spec_name(),
    {
        match self {
            Self::Twitter { handle, .. } => handle.clone(),
        }
    }

    /// The handle carried by the record.
    pub open spec fn spec_name(&self) -> Seq<char> {
        match self {
            UserInfo::Twitter { handle, .. } => handle@,
        }
    }

    /// The wallet address last associated with the user.
    pub fn address(&self) -> (r: UniversalWalletAddress)
        ensures
            r == self.spec_address(),
    {
        match self {
            Self::Twitter { address, .. } => *address,
        }
    }

    /// The address carried by the record.
    pub open spec fn spec_address(&self) -> UniversalWalletAddress {
        match self {
            UserInfo::Twitter { address, .. } => *address,
        }
    }
}

/// One claim record: when an identity last claimed on one chain, and to
/// which address. At most one such record exists per (identity, chain) key.
#[derive(Clone, Copy, Debug, PartialEq, Eq)]
pub struct ClaimsData {
    /// The claiming identity.
    pub identity: u64,
    /// The destination address of the last successful claim.
    pub address: UniversalWalletAddress,
    /// When the last successful claim happened, in milliseconds since the
    /// Unix epoch.
    pub last_claimed_date: u64,
}

} // verus!
