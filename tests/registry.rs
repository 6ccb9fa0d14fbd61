use tw_coin_registry::dispatch::{Dispatcher, UnsupportedChainError};
use tw_coin_registry::registry::{matches_tag, supported_chains, BlockchainType};

#[test]
fn sui_tag_resolves_and_dispatches() {
    let id = BlockchainType::from_tag("SUI");
    assert_eq!(id, BlockchainType::Sui);
    assert!(id.is_supported());
    let d = Dispatcher::new();
    let m = d.module_for(id).unwrap();
    assert_eq!(m.chain(), BlockchainType::Sui);
}

#[test]
fn unknown_tag_is_unsupported_and_rejected() {
    let id = BlockchainType::from_tag("NOTACHAIN");
    assert_eq!(id, BlockchainType::Unsupported);
    assert!(!id.is_supported());
    let d = Dispatcher::new();
    assert_eq!(
        d.module_for(id),
        Err(UnsupportedChainError { chain: BlockchainType::Unsupported })
    );
}

#[test]
fn foobar_is_unsupported() {
    let id = BlockchainType::from_tag("Foobar");
    assert_eq!(id, BlockchainType::Unsupported);
    assert!(!id.is_supported());
}

#[test]
fn empty_and_near_miss_tags_are_unsupported() {
    assert_eq!(BlockchainType::from_tag(""), BlockchainType::Unsupported);
    assert_eq!(BlockchainType::from_tag("Su"), BlockchainType::Unsupported);
    assert_eq!(BlockchainType::from_tag("Suii"), BlockchainType::Unsupported);
    assert_eq!(BlockchainType::from_tag(" Sui"), BlockchainType::Unsupported);
    assert_eq!(BlockchainType::from_tag("Bitcoin Cash"), BlockchainType::Unsupported);
    assert_eq!(BlockchainType::from_tag("Süi"), BlockchainType::Unsupported);
}

#[test]
fn every_recognized_tag_resolves_to_its_identity() {
    let chains = supported_chains();
    assert_eq!(chains.len(), 24);
    for c in chains {
        assert!(c.is_supported());
        assert_eq!(BlockchainType::from_tag(c.tag()), c);
        assert_eq!(BlockchainType::from_tag(&c.tag().to_uppercase()), c);
        assert_eq!(BlockchainType::from_tag(&c.tag().to_lowercase()), c);
    }
}

#[test]
fn tags_are_the_variant_names() {
    assert_eq!(BlockchainType::Aptos.tag(), "Aptos");
    assert_eq!(BlockchainType::BitcoinCash.tag(), "BitcoinCash");
    assert_eq!(BlockchainType::InternetComputer.tag(), "InternetComputer");
    assert_eq!(BlockchainType::TheOpenNetwork.tag(), "TheOpenNetwork");
    assert_eq!(BlockchainType::Zcash.tag(), "Zcash");
    assert_eq!(BlockchainType::Unsupported.tag(), "Unsupported");
}

#[test]
fn unsupported_tag_round_trips_to_unsupported() {
    let t = BlockchainType::Unsupported.tag();
    assert_eq!(BlockchainType::from_tag(t), BlockchainType::Unsupported);
}

#[test]
fn registration_order_is_stable() {
    let chains = supported_chains();
    assert_eq!(chains[0], BlockchainType::Aptos);
    assert_eq!(chains[3], BlockchainType::BitcoinCash);
    assert_eq!(chains[20], BlockchainType::Sui);
    assert_eq!(chains[23], BlockchainType::Zcash);
    assert!(!chains.contains(&BlockchainType::Unsupported));
}

#[test]
fn matching_ignores_ascii_case_only() {
    assert!(matches_tag("ethereum", "Ethereum"));
    assert!(matches_tag("ETHEREUM", "Ethereum"));
    assert!(!matches_tag("Ethereu", "Ethereum"));
    assert!(!matches_tag("Ethereum1", "Ethereum"));
    assert!(!matches_tag("ÉTHEREUM", "Ethereum"));
    assert!(matches_tag("", ""));
}

#[test]
fn every_supported_identity_has_its_module() {
    let d = Dispatcher::new();
    for c in supported_chains() {
        let m = d.module_for(c).unwrap();
        assert_eq!(m.chain(), c);
    }
}

#[test]
fn dispatch_is_repeatable() {
    let d = Dispatcher::new();
    assert_eq!(d.module_for(BlockchainType::Solana), d.module_for(BlockchainType::Solana));
    assert_eq!(
        d.module_for(BlockchainType::Unsupported),
        d.module_for(BlockchainType::Unsupported)
    );
}
