//! Runtime configuration of the faucet, handed in as plain values.
//!
//! The surrounding process reads its configuration files and environment;
//! this module holds the decisions taken over those values: defaults, and
//! per-chain lookups of RPC endpoints and token contract addresses.

use vstd::prelude::*;
use crate::hexutil::{convert_hex_to_bytes, spec_hex_to_address};

verus! {

/// The configuration the claim flow consumes. Amounts of the native
/// currency are in its smallest unit.
#[derive(Clone, Debug)]
pub struct FaucetConfig {
    /// Minimum interval between successive successful claims for one
    /// (identity, chain) key, in milliseconds.
    pub time_to_wait_between_claims: u64,
    /// The amount of tokens sent per claim, before decimal scaling.
    pub token_amount: u64,
    /// The amount of native currency sent per claim, in its smallest unit.
    pub native_token_amount: u128,
    /// Whether the social-graph condition is checked before a claim.
    pub verify_following_webb: bool,
    /// How long a submitted transaction is awaited, in milliseconds.
    pub tx_timeout: u64,
}

/// The default interval between claims: a day, or nothing under a debug
/// profile.
pub fn default_time_to_wait_between_claims(debug_profile: bool) -> (r: u64)
    ensures
        r == if debug_profile {
            0u64
        } else {
            86400000u64
        },
{
    if debug_profile {
        0
    } else {
        24 * 60 * 60 * 1000
    }
}

/// The default amount of tokens per claim.
pub fn default_token_amount() -> (r: u64)
    ensures
        r == 20u64,
{
    20
}

/// By default the social-graph condition is checked.
pub fn default_verify_following_webb() -> (r: bool)
    ensures
        r,
{
    true
}

/// The value under the first entry of `s` whose key is `k`, or `None` when
/// no entry has it.
pub open spec fn spec_find<T>(s: Seq<(u64, T)>, k: u64) -> Option<T>
    decreases s.len(),
{
    if s.len() == 0 {
        None
    } else if s[0].0 == k {
        Some(s[0].1)
    } else {
        spec_find(s.drop_first(), k)
    }
}

/// The RPC URL configured for an EVM chain: the first URL listed under the
/// chain id, or a local default when the chain has none.
pub fn get_evm_rpc_url(rpc_data: &Vec<(u64, Vec<String>)>, chain_id: u64) -> (r: String)
    requires
        spec_find(rpc_data@, chain_id) matches Some(urls) ==> urls@.len() > 0,
    ensures
        match spec_find(rpc_data@, chain_id) {
            Some(urls) => r@ == urls@[0]@,
            None => r@ == "http://localhost:8545"@,
        },
{
    let n = rpc_data.len();
    let mut i: usize = 0;
    proof {
        assert(rpc_data@.skip(0) =~= rpc_data@);
    }
    while i < n
        invariant
            n == rpc_data@.len(),
            i <= n,
            spec_find(rpc_data@, chain_id) matches Some(urls) ==> urls@.len() > 0,
            spec_find(rpc_data@.skip(i as int), chain_id) == spec_find(rpc_data@, chain_id),
        decreases n - i,
    {
        proof {
            assert(rpc_data@.skip(i as int).drop_first() =~= rpc_data@.skip(i + 1));
        }
        if rpc_data[i].0 == chain_id {
            proof {
                assert(rpc_data@.skip(i as int)[0] == rpc_data@[i as int]);
            }
            return rpc_data[i].1[0].clone();
        }
        i += 1;
    }
    proof {
        assert(rpc_data@.skip(n as int) =~= Seq::<(u64, Vec<String>)>::empty());
    }
    "http://localhost:8545".to_owned()
}

/// The RPC URL used for every Substrate chain.
pub fn get_substrate_rpc_url(_chain_id: u64) -> (r: String)
    ensures
        r@ == "wss://tangle-standalone-archive.webb.tools:443"@,
{
    "wss://tangle-standalone-archive.webb.tools:443".to_owned()
}

/// All twenty bytes zero: the address used when no token contract is
/// configured for a chain.
pub open spec fn spec_zero_address() -> Seq<u8> {
    Seq::new(20, |i: int| 0u8)
}

/// The token contract address configured for an EVM chain: the configured
/// hex string when it decodes to 20 bytes, the zero address otherwise.
pub open spec fn spec_token_address(token_data: Seq<(u64, String)>, chain_id: u64) -> Seq<u8> {
    match spec_find(token_data, chain_id) {
        Some(s) => match spec_hex_to_address(s@) {
            Ok(b) => b,
            Err(_) => spec_zero_address(),
        },
        None => spec_zero_address(),
    }
}

/// The token contract deployed on an EVM chain, decoded from the
/// configured hex string; the zero address when the chain has none
/// configured or the configured string is malformed.
pub fn get_evm_token_address(token_data: &Vec<(u64, String)>, chain_id: u64) -> (r: [u8; 20])
    ensures
        r@ == spec_token_address(token_data@, chain_id),
{
    let n = token_data.len();
    let mut i: usize = 0;
    proof {
        assert(token_data@.skip(0) =~= token_data@);
    }
    while i < n
        invariant
            n == token_data@.len(),
            i <= n,
            spec_find(token_data@.skip(i as int), chain_id) == spec_find(token_data@, chain_id),
        decreases n - i,
    {
        proof {
            assert(token_data@.skip(i as int).drop_first() =~= token_data@.skip(i + 1));
        }
        if token_data[i].0 == chain_id {
            proof {
                assert(token_data@.skip(i as int)[0] == token_data@[i as int]);
            }
            return match convert_hex_to_bytes(token_data[i].1.as_str()) {
                Ok(bytes) => bytes,
                Err(_) => zero_address(),
            };
        }
        i += 1;
    }
    proof {
        assert(token_data@.skip(n as int) =~= Seq::<(u64, String)>::empty());
    }
    zero_address()
}

/// The zero address as a value.
fn zero_address() -> (r: [u8; 20])
    ensures
        r@ == spec_zero_address(),
{
    let r = [0u8; 20];
    proof {
        assert(r@ =~= spec_zero_address());
    }
    r
}

} // verus!
