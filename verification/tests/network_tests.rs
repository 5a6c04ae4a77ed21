use webb_faucet::network::{Network, TypedChainId};

#[test]
fn from_string_known_networks() {
    assert!(matches!(Network::from_string("sepolia"), Some(Network::Sepolia)));
    assert!(matches!(Network::from_string("goerli"), Some(Network::Goerli)));
    assert!(matches!(Network::from_string("optimism-goerli"), Some(Network::OptimismGoerli)));
    assert!(matches!(Network::from_string("arbitrum-goerli"), Some(Network::ArbitrumGoerli)));
    assert!(matches!(Network::from_string("polygon-mumbai"), Some(Network::PolygonMumbai)));
    assert!(matches!(Network::from_string("scroll-alpha"), Some(Network::ScrollAlpha)));
    assert!(matches!(Network::from_string("moonbase-alpha"), Some(Network::MoonbaseAlpha)));
    assert!(matches!(Network::from_string("avalanche-fuji"), Some(Network::AvalancheFuji)));
    assert!(matches!(Network::from_string("hermes"), Some(Network::Hermes)));
    assert!(matches!(Network::from_string("athena"), Some(Network::Athena)));
    assert!(matches!(Network::from_string("demeter"), Some(Network::Demeter)));
}

#[test]
fn from_string_unknown_names() {
    assert!(Network::from_string("tangle").is_none());
    assert!(Network::from_string("").is_none());
    assert!(Network::from_string("Sepolia").is_none());
    assert!(Network::from_string("sepolia ").is_none());
}

#[test]
fn evm_chain_id_round_trip() {
    let ids: [u64; 11] = [
        11155111, 5, 420, 421613, 80001, 534353, 1287, 43113, 3884533461, 3884533462, 3884533463,
    ];
    for id in ids {
        let n = Network::from_evm_chain_id(id).expect("supported evm chain");
        assert_eq!(n.to_evm_chain_id(), Some(id));
    }
    assert!(Network::from_evm_chain_id(1).is_none());
    assert!(Network::from_evm_chain_id(1081).is_none());
}

#[test]
fn substrate_chain_id_round_trip() {
    let n = Network::from_substrate_chain_id(1081).expect("tangle");
    assert!(matches!(n, Network::Tangle));
    assert_eq!(n.to_substrate_chain_id(), Some(1081));
    assert!(Network::from_substrate_chain_id(5).is_none());
    assert_eq!(Network::Tangle.to_evm_chain_id(), None);
    assert_eq!(Network::Goerli.to_substrate_chain_id(), None);
}

#[test]
fn typed_chain_id_conversions() {
    let n = Network::from_typed_chain_id(TypedChainId::Evm(5)).expect("goerli");
    assert!(matches!(n, Network::Goerli));
    assert_eq!(n.to_typed_chain_id(), Some(TypedChainId::Evm(5)));

    let t = Network::from_typed_chain_id(TypedChainId::Substrate(1081)).expect("tangle");
    assert_eq!(t.to_typed_chain_id(), Some(TypedChainId::Substrate(1081)));

    // the same numeric id in the other family is a different chain
    assert!(Network::from_typed_chain_id(TypedChainId::Substrate(5)).is_none());
    assert!(Network::from_typed_chain_id(TypedChainId::Evm(1081)).is_none());
}

#[test]
fn typed_chain_id_accessors() {
    let evm = TypedChainId::Evm(5);
    let sub = TypedChainId::Substrate(5);
    assert_eq!(evm.chain_id(), 5);
    assert_eq!(sub.chain_id(), 5);
    assert!(evm.is_evm());
    assert!(!sub.is_evm());
    assert_ne!(evm, sub);
}
