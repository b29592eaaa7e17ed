use kubchain::config::{kub_revm_spec, kub_revm_spec_by_block_number, SpecId};
use kubchain::hardforks::{ChainHardforks, EthereumHardfork, ForkCondition, Hardfork};
use kubchain::header::Header;
use kubchain::hardforks::EthereumHardfork::{
    ArrowGlacier, Berlin, Byzantium, Cancun, Constantinople, Dao, Frontier, GrayGlacier, Homestead,
    Istanbul, London, MuirGlacier, Petersburg, Shanghai, SpuriousDragon, Tangerine,
};

/// Ethereum mainnet's schedule, as a chain spec builder starts from.
fn mainnet() -> Vec<(Hardfork, ForkCondition)> {
    vec![
        (Hardfork::Ethereum(Frontier), ForkCondition::Block(0)),
        (Hardfork::Ethereum(Homestead), ForkCondition::Block(1_150_000)),
        (Hardfork::Ethereum(Dao), ForkCondition::Block(1_920_000)),
        (Hardfork::Ethereum(Tangerine), ForkCondition::Block(2_463_000)),
        (Hardfork::Ethereum(SpuriousDragon), ForkCondition::Block(2_675_000)),
        (Hardfork::Ethereum(Byzantium), ForkCondition::Block(4_370_000)),
        (Hardfork::Ethereum(Constantinople), ForkCondition::Block(7_280_000)),
        (Hardfork::Ethereum(Petersburg), ForkCondition::Block(7_280_000)),
        (Hardfork::Ethereum(Istanbul), ForkCondition::Block(9_069_000)),
        (Hardfork::Ethereum(MuirGlacier), ForkCondition::Block(9_200_000)),
        (Hardfork::Ethereum(Berlin), ForkCondition::Block(12_244_000)),
        (Hardfork::Ethereum(London), ForkCondition::Block(12_965_000)),
        (Hardfork::Ethereum(ArrowGlacier), ForkCondition::Block(13_773_000)),
        (Hardfork::Ethereum(GrayGlacier), ForkCondition::Block(15_050_000)),
        (Hardfork::Ethereum(Shanghai), ForkCondition::Timestamp(1_681_338_455)),
        (Hardfork::Ethereum(Cancun), ForkCondition::Timestamp(1_710_338_135)),
    ]
}

/// The mainnet schedule with every fork up to and including `last` activated at block 0.
fn activated_through(last: EthereumHardfork) -> ChainHardforks {
    let order = [
        Frontier, Homestead, Dao, Tangerine, SpuriousDragon, Byzantium, Constantinople, Petersburg,
        Istanbul, MuirGlacier, Berlin, London,
    ];
    let mut forks = mainnet();
    for f in order {
        forks.push((Hardfork::Ethereum(f), ForkCondition::Block(0)));
        if f == last {
            break;
        }
    }
    ChainHardforks::new(forks)
}

#[test]
fn test_kub_spec_never_above_london() {
    // Even with later forks scheduled, KubChain stays at LONDON.
    let chain_spec = activated_through(EthereumHardfork::London);
    assert_eq!(kub_revm_spec_by_block_number(&chain_spec, 0), SpecId::LONDON);
}

#[test]
fn test_kub_spec_from_header() {
    let chain_spec = activated_through(EthereumHardfork::London);
    let header = Header::default();
    assert_eq!(kub_revm_spec(&chain_spec, &header), SpecId::LONDON);
}

#[test]
fn test_kub_spec_frontier() {
    let chain_spec = activated_through(EthereumHardfork::Frontier);
    assert_eq!(kub_revm_spec_by_block_number(&chain_spec, 0), SpecId::FRONTIER);
}

#[test]
fn test_kub_spec_istanbul() {
    let chain_spec = activated_through(EthereumHardfork::Istanbul);
    assert_eq!(kub_revm_spec_by_block_number(&chain_spec, 0), SpecId::ISTANBUL);
}

#[test]
fn test_kub_spec_berlin() {
    let chain_spec = activated_through(EthereumHardfork::Berlin);
    assert_eq!(kub_revm_spec_by_block_number(&chain_spec, 0), SpecId::BERLIN);
}

#[test]
fn spec_follows_mainnet_blocks() {
    let chain_spec = ChainHardforks::new(mainnet());
    assert_eq!(kub_revm_spec_by_block_number(&chain_spec, 1_149_999), SpecId::FRONTIER);
    assert_eq!(kub_revm_spec_by_block_number(&chain_spec, 1_150_000), SpecId::HOMESTEAD);
    assert_eq!(kub_revm_spec_by_block_number(&chain_spec, 7_280_000), SpecId::PETERSBURG);
    assert_eq!(kub_revm_spec_by_block_number(&chain_spec, 20_000_000), SpecId::LONDON);
}

#[test]
fn fork_lookup_last_entry_wins() {
    let chain_spec = activated_through(EthereumHardfork::Homestead);
    assert_eq!(
        chain_spec.fork(Hardfork::Ethereum(EthereumHardfork::Homestead)),
        ForkCondition::Block(0)
    );
    assert_eq!(
        chain_spec.fork(Hardfork::Ethereum(EthereumHardfork::Prague)),
        ForkCondition::Never
    );
    assert!(ForkCondition::Block(5).transitions_at_block(5));
    assert!(!ForkCondition::Block(5).transitions_at_block(6));
    assert!(!ForkCondition::Timestamp(5).active_at_block(10));
}
