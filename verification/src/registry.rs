//! The chain registry: which networks this process can pay out on.
//!
//! Built once at startup from configuration and read-only thereafter. A
//! lookup that misses is a configuration error, reported to the caller as
//! an unsupported chain, never silently dropped. The connection handles
//! themselves (RPC clients, signers) live outside; the registry holds what
//! the claim flow decides over: the supported ids and each EVM chain's
//! token contract.

use vstd::prelude::*;
use crate::config::spec_find;
use crate::network::TypedChainId;

verus! {

/// The set of supported networks, resolved once at startup.
#[derive(Clone, Debug)]
pub struct ChainRegistry {
    /// Supported EVM chains, each with its token contract address.
    evm_chains: Vec<(u64, [u8; 20])>,
    /// Supported Substrate chains.
    substrate_chains: Vec<u64>,
}

impl ChainRegistry {
    /// The token contract of each supported EVM chain.
    pub closed spec fn spec_evm_token(&self, chain_id: u64) -> Option<[u8; 20]> {
        spec_find(self.evm_chains@, chain_id)
    }

    /// Whether a Substrate chain is supported.
    pub closed spec fn spec_has_substrate(&self, chain_id: u64) -> bool {
        self.substrate_chains@.contains(chain_id)
    }

    /// Whether a chain is supported, by family and numeric id.
    pub open spec fn spec_supports(&self, chain: TypedChainId) -> bool {
        match chain {
            TypedChainId::Evm(id) => self.spec_evm_token(id as u64) is Some,
            TypedChainId::Substrate(id) => self.spec_has_substrate(id as u64),
        }
    }

    /// Builds the registry from the configured chain lists.
    pub fn new(evm_chains: Vec<(u64, [u8; 20])>, substrate_chains: Vec<u64>) -> (r: ChainRegistry)
        ensures
            forall|id: u64| #[trigger] r.spec_evm_token(id) == spec_find(evm_chains@, id),
            forall|id: u64| #[trigger] r.spec_has_substrate(id) == substrate_chains@.contains(id),
    {
        ChainRegistry { evm_chains, substrate_chains }
    }

    /// The token contract of an EVM chain, or `None` when the chain is
    /// unsupported.
    pub fn evm_token(&self, chain_id: u64) -> (r: Option<[u8; 20]>)
        ensures
            r == self.spec_evm_token(chain_id),
    {
        let n = self.evm_chains.len();
        let mut i: usize = 0;
        proof {
            assert(self.evm_chains@.skip(0) =~= self.evm_chains@);
        }
        while i < n
            invariant
                n == self.evm_chains@.len(),
                i <= n,
                spec_find(self.evm_chains@.skip(i as int), chain_id) == spec_find(
                    self.evm_chains@,
                    chain_id,
                ),
            decreases n - i,
        {
            proof {
                assert(self.evm_chains@.skip(i as int).drop_first() =~= self.evm_chains@.skip(
                    i + 1,
                ));
            }
            if self.evm_chains[i].0 == chain_id {
                proof {
                    assert(self.evm_chains@.skip(i as int)[0] == self.evm_chains@[i as int]);
                }
                return Some(self.evm_chains[i].1);
            }
            i += 1;
        }
        proof {
            assert(self.evm_chains@.skip(n as int) =~= Seq::<(u64, [u8; 20])>::empty());
        }
        None
    }

    /// Whether a Substrate chain is supported.
    pub fn has_substrate(&self, chain_id: u64) -> (r: bool)
        ensures
            r == self.spec_has_substrate(chain_id),
    {
        let n = self.substrate_chains.len();
        let mut i: usize = 0;
        while i < n
            invariant
                n == self.substrate_chains@.len(),
                i <= n,
                forall|j: int| 0 <= j < i ==> self.substrate_chains@[j] != chain_id,
            decreases n - i,
        {
            if self.substrate_chains[i] == chain_id {
                return true;
            }
            i += 1;
        }
        proof {
            if self.substrate_chains@.contains(chain_id) {
                let j = choose|j: int|
                    0 <= j < self.substrate_chains@.len() && self.substrate_chains@[j] == chain_id;
            }
        }
        false
    }

    /// Whether a chain is supported, by family and numeric id.
    pub fn supports(&self, chain: TypedChainId) -> (r: bool)
        ensures
            r == self.spec_supports(chain),
    {
        match chain {
            TypedChainId::Evm(id) => self.evm_token(id as u64).is_some(),
            TypedChainId::Substrate(id) => self.has_substrate(id as u64),
        }
    }
}

} // verus!
