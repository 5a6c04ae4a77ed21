//! Chain identifiers and the set of supported networks.
//!
//! A chain is identified by its family (EVM or Substrate) together with a
//! family-specific numeric id. Two chains with the same numeric id but
//! different families are distinct keys everywhere in this crate.

use vstd::prelude::*;
use crate::strutil::str_eq;

verus! {

/// A typed chain id: the chain family plus the family-specific numeric id.
#[derive(Clone, Copy, Debug, PartialEq, Eq, Hash, Structural)]
pub enum TypedChainId {
    Evm(u32),
    Substrate(u32),
}

impl TypedChainId {
    /// The family-specific numeric id, without the family tag.
    pub fn chain_id(&self) -> (r: u32)
        ensures
            r == self.spec_chain_id(),
    {
        match self {
            TypedChainId::Evm(id) => *id,
            TypedChainId::Substrate(id) => *id,
        }
    }

    /// The numeric id carried by either variant.
    pub open spec fn spec_chain_id(&self) -> u32 {
        match self {
            TypedChainId::Evm(id) => *id,
            TypedChainId::Substrate(id) => *id,
        }
    }

    /// True when this chain belongs to the EVM family.
    pub fn is_evm(&self) -> (r: bool)
        ensures
            r == (*self is Evm),
    {
        matches!(self, TypedChainId::Evm(..))
    }
}

/// The networks this faucet knows how to pay out on.
#[derive(Clone, Copy, Debug, PartialEq, Eq, Structural)]
pub enum Network {
    Sepolia,
    Goerli,
    OptimismGoerli,
    ArbitrumGoerli,
    PolygonMumbai,
    ScrollAlpha,
    MoonbaseAlpha,
    AvalancheFuji,
    Hermes,
    Athena,
    Demeter,
    // Substrate
    Tangle,
}

impl Network {
    /// The network each configuration name denotes; `None` for any other
    /// name. Only EVM networks are named in configuration.
    pub open spec fn spec_from_string(s: Seq<char>) -> Option<Network> {
        if s == "sepolia"@ {
            Some(Network::Sepolia)
        } else if s == "goerli"@ {
            Some(Network::Goerli)
        } else if s == "optimism-goerli"@ {
            Some(Network::OptimismGoerli)
        } else if s == "arbitrum-goerli"@ {
            Some(Network::ArbitrumGoerli)
        } else if s == "polygon-mumbai"@ {
            Some(Network::PolygonMumbai)
        } else if s == "scroll-alpha"@ {
            Some(Network::ScrollAlpha)
        } else if s == "moonbase-alpha"@ {
            Some(Network::MoonbaseAlpha)
        } else if s == "avalanche-fuji"@ {
            Some(Network::AvalancheFuji)
        } else if s == "hermes"@ {
            Some(Network::Hermes)
        } else if s == "athena"@ {
            Some(Network::Athena)
        } else if s == "demeter"@ {
            Some(Network::Demeter)
        } else {
            None
        }
    }

    /// The network named by `network`, or `None` for an unknown name.
    pub fn from_string(network: &str) -> (r: Option<Network>)
        ensures
            r == Network::spec_from_string(network@),
    {
        if str_eq(network, "sepolia") {
            Some(Self::Sepolia)
        } else if str_eq(network, "goerli") {
            Some(Self::Goerli)
        } else if str_eq(network, "optimism-goerli") {
            Some(Self::OptimismGoerli)
        } else if str_eq(network, "arbitrum-goerli") {
            Some(Self::ArbitrumGoerli)
        } else if str_eq(network, "polygon-mumbai") {
            Some(Self::PolygonMumbai)
        } else if str_eq(network, "scroll-alpha") {
            Some(Self::ScrollAlpha)
        } else if str_eq(network, "moonbase-alpha") {
            Some(Self::MoonbaseAlpha)
        } else if str_eq(network, "avalanche-fuji") {
            Some(Self::AvalancheFuji)
        } else if str_eq(network, "hermes") {
            Some(Self::Hermes)
        } else if str_eq(network, "athena") {
            Some(Self::Athena)
        } else if str_eq(network, "demeter") {
            Some(Self::Demeter)
        } else {
            None
        }
    }

    /// The EVM chain id of each EVM network; `None` for Substrate networks.
    pub open spec fn evm_chain_id(&self) -> Option<u64> {
        match self {
            Network::Sepolia => Some(11155111u64),
            Network::Goerli => Some(5u64),
            Network::OptimismGoerli => Some(420u64),
            Network::ArbitrumGoerli => Some(421613u64),
            Network::PolygonMumbai => Some(80001u64),
            Network::ScrollAlpha => Some(534353u64),
            Network::MoonbaseAlpha => Some(1287u64),
            Network::AvalancheFuji => Some(43113u64),
            Network::Athena => Some(3884533461u64),
            Network::Hermes => Some(3884533462u64),
            Network::Demeter => Some(3884533463u64),
            Network::Tangle => None,
        }
    }

    /// The Substrate chain id of each Substrate network; `None` for EVM
    /// networks.
    pub open spec fn substrate_chain_id(&self) -> Option<u64> {
        match self {
            Network::Tangle => Some(1081u64),
            _ => None,
        }
    }

    /// The network each EVM chain id belongs to; `None` for ids no
    /// supported EVM network has.
    pub open spec fn spec_from_evm_chain_id(chain_id: u64) -> Option<Network> {
        if chain_id == 11155111u64 {
            Some(Network::Sepolia)
        } else if chain_id == 5u64 {
            Some(Network::Goerli)
        } else if chain_id == 420u64 {
            Some(Network::OptimismGoerli)
        } else if chain_id == 421613u64 {
            Some(Network::ArbitrumGoerli)
        } else if chain_id == 80001u64 {
            Some(Network::PolygonMumbai)
        } else if chain_id == 534353u64 {
            Some(Network::ScrollAlpha)
        } else if chain_id == 1287u64 {
            Some(Network::MoonbaseAlpha)
        } else if chain_id == 43113u64 {
            Some(Network::AvalancheFuji)
        } else if chain_id == 3884533461u64 {
            Some(Network::Athena)
        } else if chain_id == 3884533462u64 {
            Some(Network::Hermes)
        } else if chain_id == 3884533463u64 {
            Some(Network::Demeter)
        } else {
            None
        }
    }

    /// The network with this EVM chain id, or `None` if no supported EVM
    /// network has it. The returned network's id is the one looked up.
    pub fn from_evm_chain_id(chain_id: u64) -> (r: Option<Network>)
        ensures
            r == Network::spec_from_evm_chain_id(chain_id),
            r matches Some(n) ==> n.evm_chain_id() == Some(chain_id),
            r is None ==> forall|n: Network| #[trigger] n.evm_chain_id() != Some(chain_id),
    {
        let r = match chain_id {
            11155111u64 => Some(Self::Sepolia),
            5u64 => Some(Self::Goerli),
            420u64 => Some(Self::OptimismGoerli),
            421613u64 => Some(Self::ArbitrumGoerli),
            80001u64 => Some(Self::PolygonMumbai),
            534353u64 => Some(Self::ScrollAlpha),
            1287u64 => Some(Self::MoonbaseAlpha),
            43113u64 => Some(Self::AvalancheFuji),
            3884533461u64 => Some(Self::Athena),
            3884533462u64 => Some(Self::Hermes),
            3884533463u64 => Some(Self::Demeter),
            _ => None,
        };
        proof {
            if r is None {
                assert forall|n: Network| #[trigger] n.evm_chain_id() != Some(chain_id) by {
                    match n {
                        Network::Sepolia => assert(chain_id != 11155111u64),
                        _ => {},
                    }
                }
            }
        }
        r
    }

    /// The EVM chain id, exactly for EVM networks.
    pub fn to_evm_chain_id(&self) -> (r: Option<u64>)
        ensures
            r == self.evm_chain_id(),
    {
        match self {
            Self::Sepolia => Some(11155111),
            Self::Goerli => Some(5),
            Self::OptimismGoerli => Some(420),
            Self::ArbitrumGoerli => Some(421613),
            Self::PolygonMumbai => Some(80001),
            Self::ScrollAlpha => Some(534353),
            Self::MoonbaseAlpha => Some(1287),
            Self::AvalancheFuji => Some(43113),
            Self::Athena => Some(3884533461),
            Self::Hermes => Some(3884533462),
            Self::Demeter => Some(3884533463),
            Self::Tangle => None,
        }
    }

    /// The network each Substrate chain id belongs to.
    pub open spec fn spec_from_substrate_chain_id(chain_id: u64) -> Option<Network> {
        if chain_id == 1081u64 {
            Some(Network::Tangle)
        } else {
            None
        }
    }

    /// The network with this Substrate chain id, or `None` if no supported
    /// Substrate network has it. The returned network's id is the one
    /// looked up.
    pub fn from_substrate_chain_id(chain_id: u64) -> (r: Option<Network>)
        ensures
            r == Network::spec_from_substrate_chain_id(chain_id),
            r matches Some(n) ==> n.substrate_chain_id() == Some(chain_id),
            r is None ==> forall|n: Network| #[trigger] n.substrate_chain_id() != Some(chain_id),
    {
        match chain_id {
            1081u64 => Some(Self::Tangle),
            _ => None,
        }
    }

    /// The Substrate chain id, exactly for Substrate networks.
    pub fn to_substrate_chain_id(&self) -> (r: Option<u64>)
        ensures
            r == self.substrate_chain_id(),
    {
        match self {
            Self::Tangle => Some(1081),
            _ => None,
        }
    }

    /// The network serving this typed chain id, or `None` if the id is not
    /// supported in its family.
    pub fn from_typed_chain_id(typed_chain_id: TypedChainId) -> (r: Option<Network>)
        ensures
            r == match typed_chain_id {
                TypedChainId::Evm(chain_id) => Network::spec_from_evm_chain_id(chain_id as u64),
                TypedChainId::Substrate(chain_id) => Network::spec_from_substrate_chain_id(
                    chain_id as u64,
                ),
            },
    {
        match typed_chain_id {
            TypedChainId::Evm(chain_id) => Self::from_evm_chain_id(chain_id as u64),
            TypedChainId::Substrate(chain_id) => Self::from_substrate_chain_id(chain_id as u64),
        }
    }

    /// The typed chain id each network serves.
    pub open spec fn spec_to_typed_chain_id(&self) -> Option<TypedChainId> {
        match self {
            Network::Tangle => Some(TypedChainId::Substrate(1081)),
            Network::ArbitrumGoerli => Some(TypedChainId::Evm(421613)),
            Network::Athena => Some(TypedChainId::Evm(3884533461)),
            Network::Demeter => Some(TypedChainId::Evm(3884533463)),
            Network::Goerli => Some(TypedChainId::Evm(5)),
            Network::Hermes => Some(TypedChainId::Evm(3884533462)),
            Network::MoonbaseAlpha => Some(TypedChainId::Evm(1287)),
            Network::OptimismGoerli => Some(TypedChainId::Evm(420)),
            Network::PolygonMumbai => Some(TypedChainId::Evm(80001)),
            Network::ScrollAlpha => Some(TypedChainId::Evm(534353)),
            Network::Sepolia => Some(TypedChainId::Evm(11155111)),
            Network::AvalancheFuji => Some(TypedChainId::Evm(43113)),
        }
    }

    /// The typed chain id this network serves: its own numeric id under
    /// its own family.
    pub fn to_typed_chain_id(&self) -> (r: Option<TypedChainId>)
        ensures
            r == self.spec_to_typed_chain_id(),
            r matches Some(t) ==> match t {
                TypedChainId::Evm(id) => self.evm_chain_id() == Some(id as u64),
                TypedChainId::Substrate(id) => self.substrate_chain_id() == Some(id as u64),
            },
    {
        match self {
            Self::Tangle => Some(TypedChainId::Substrate(1081)),
            Self::ArbitrumGoerli => Some(TypedChainId::Evm(421613)),
            Self::Athena => Some(TypedChainId::Evm(3884533461)),
            Self::Demeter => Some(TypedChainId::Evm(3884533463)),
            Self::Goerli => Some(TypedChainId::Evm(5)),
            Self::Hermes => Some(TypedChainId::Evm(3884533462)),
            Self::MoonbaseAlpha => Some(TypedChainId::Evm(1287)),
            Self::OptimismGoerli => Some(TypedChainId::Evm(420)),
            Self::PolygonMumbai => Some(TypedChainId::Evm(80001)),
            Self::ScrollAlpha => Some(TypedChainId::Evm(534353)),
            Self::Sepolia => Some(TypedChainId::Evm(11155111)),
            Self::AvalancheFuji => Some(TypedChainId::Evm(43113)),
        }
    }
}

} // verus!
