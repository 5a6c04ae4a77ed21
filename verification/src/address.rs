//! Wallet addresses, tagged by chain family.
//!
//! An EVM address is 20 bytes; a Substrate account id is 32 bytes. Two
//! addresses with the same bytes but different families are distinct values.

use vstd::prelude::*;

verus! {

/// A wallet address as persisted with a claim record: either unknown, or
/// tagged with the chain family it belongs to.
#[derive(Clone, Copy, Debug, PartialEq, Eq)]
pub enum UniversalWalletAddress {
    Unknown,
    Ethereum([u8; 20]),
    Substrate([u8; 32]),
}

impl UniversalWalletAddress {
    /// Returns `true` if the universal wallet address is [`Unknown`].
    ///
    /// [`Unknown`]: UniversalWalletAddress::Unknown
    pub fn is_unknown(&self) -> (r: bool)
        ensures
            r == (*self is Unknown),
    {
        matches!(self, Self::Unknown)
    }

    /// Returns `true` if the universal wallet address is [`Ethereum`].
    ///
    /// [`Ethereum`]: UniversalWalletAddress::Ethereum
    pub fn is_ethereum(&self) -> (r: bool)
        ensures
            r == (*self is Ethereum),
    {
        matches!(self, Self::Ethereum(..))
    }

    /// Returns `true` if the universal wallet address is [`Substrate`].
    ///
    /// [`Substrate`]: UniversalWalletAddress::Substrate
    pub fn is_substrate(&self) -> (r: bool)
        ensures
            r == (*self is Substrate),
    {
        matches!(self, Self::Substrate(..))
    }

    /// The 20 address bytes, exactly when this is an EVM address.
    pub fn as_ethereum(&self) -> (r: Option<[u8; 20]>)
        ensures
            match r {
                Some(bytes) => *self == UniversalWalletAddress::Ethereum(bytes),
                None => !(*self is Ethereum),
            },
    {
        if let Self::Ethereum(v) = self {
            Some(*v)
        } else {
            None
        }
    }

    /// The 32 account-id bytes, exactly when this is a Substrate address.
    pub fn as_substrate(&self) -> (r: Option<[u8; 32]>)
        ensures
            match r {
                Some(bytes) => *self == UniversalWalletAddress::Substrate(bytes),
                None => !(*self is Substrate),
            },
    {
        if let Self::Substrate(v) = self {
            Some(*v)
        } else {
            None
        }
    }
}

/// The destination address carried by an inbound claim request. Unlike
/// [`UniversalWalletAddress`] it is never unknown: a request always names
/// a concrete destination.
#[derive(Clone, Copy, Debug, PartialEq, Eq)]
pub enum MultiAddress {
    Ethereum([u8; 20]),
    Substrate([u8; 32]),
}

impl MultiAddress {
    /// Returns `true` if the multi address is [`Ethereum`].
    ///
    /// [`Ethereum`]: MultiAddress::Ethereum
    pub fn is_ethereum(&self) -> (r: bool)
        ensures
            r == (*self is Ethereum),
    {
        matches!(self, Self::Ethereum(..))
    }

    /// Returns `true` if the multi address is [`Substrate`].
    ///
    /// [`Substrate`]: MultiAddress::Substrate
    pub fn is_substrate(&self) -> (r: bool)
        ensures
            r == (*self is Substrate),
    {
        matches!(self, Self::Substrate(..))
    }

    /// The [`Ethereum`] address bytes if the multi address is [`Ethereum`],
    /// `None` if it is [`Substrate`].
    ///
    /// [`Ethereum`]: MultiAddress::Ethereum
    /// [`Substrate`]: MultiAddress::Substrate
    pub fn ethereum(&self) -> (r: Option<&[u8; 20]>)
        ensures
            match r {
                Some(bytes) => *self == MultiAddress::Ethereum(*bytes),
                None => *self is Substrate,
            },
    {
        match self {
            Self::Ethereum(address) => Some(address),
            Self::Substrate(..) => None,
        }
    }

    /// The [`Substrate`] account id if the multi address is [`Substrate`],
    /// `None` if it is [`Ethereum`].
    ///
    /// [`Ethereum`]: MultiAddress::Ethereum
    /// [`Substrate`]: MultiAddress::Substrate
    pub fn substrate(&self) -> (r: Option<&[u8; 32]>)
        ensures
            match r {
                Some(bytes) => *self == MultiAddress::Substrate(*bytes),
                None => *self is Ethereum,
            },
    {
        match self {
            Self::Ethereum(..) => None,
            Self::Substrate(address) => Some(address),
        }
    }

    /// The persisted form of this destination.
    pub fn to_universal(&self) -> (r: UniversalWalletAddress)
        ensures
            r == self.universal(),
    {
        match self {
            Self::Ethereum(address) => UniversalWalletAddress::Ethereum(*address),
            Self::Substrate(address) => UniversalWalletAddress::Substrate(*address),
        }
    }

    /// What [`Self::to_universal`] returns: the same bytes under the
    /// corresponding persisted tag.
    pub open spec fn universal(&self) -> UniversalWalletAddress {
        match self {
            MultiAddress::Ethereum(address) => UniversalWalletAddress::Ethereum(*address),
            MultiAddress::Substrate(address) => UniversalWalletAddress::Substrate(*address),
        }
    }
}

} // verus!
