use std::str::FromStr;

use aetherium::{
    AetheriumDomain, AetheriumDomainConfigError, AetheriumDomainProtocol,
    AetheriumDomainTechnicalStack, AetheriumDomainType, IndexMode, KnownAetheriumDomain,
    ReorgPeriod, H256,
};

#[test]
fn domain_strings() {
    assert_eq!(
        KnownAetheriumDomain::from_str("ethereum").unwrap(),
        KnownAetheriumDomain::Ethereum,
    );
    assert_eq!(
        KnownAetheriumDomain::Ethereum.as_str().to_string(),
        "ethereum".to_string(),
    );
}

#[test]
fn domain_ids() {
    assert_eq!(
        KnownAetheriumDomain::try_from(1).unwrap(),
        KnownAetheriumDomain::Ethereum,
    );

    assert_eq!(u32::from(KnownAetheriumDomain::Ethereum), 1);
}

#[test]
fn test_name_from_domain_id() {
    assert_eq!(
        KnownAetheriumDomain::try_from(1).unwrap().as_str().to_string(),
        "ethereum"
    );
    assert_eq!(
        KnownAetheriumDomain::try_from(1).unwrap().as_str(),
        "ethereum"
    );
    assert!(KnownAetheriumDomain::try_from(0xf00u32).is_err());
}

#[test]
fn test_domain_id_from_name() {
    assert_eq!(
        "ethereum".parse::<KnownAetheriumDomain>().map(u32::from),
        Ok(1)
    );
    assert_eq!(
        "EthEreum".parse::<KnownAetheriumDomain>().map(u32::from),
        Ok(1)
    );
    assert_eq!("Bsc".parse::<KnownAetheriumDomain>().map(u32::from), Ok(56));
    assert!("foo".parse::<KnownAetheriumDomain>().is_err());
}

#[test]
fn reorg_period_from_text() {
    assert!(matches!(ReorgPeriod::from_text("0"), ReorgPeriod::Zero));
    assert!(matches!(
        ReorgPeriod::from_text("12"),
        ReorgPeriod::Blocks(12)
    ));
    match ReorgPeriod::from_text("finalized") {
        ReorgPeriod::Tag(t) => assert_eq!(t, "finalized"),
        other => panic!("expected a tag, got {:?}", other),
    }
}

#[test]
fn reorg_period_blocks() {
    assert!(matches!(ReorgPeriod::from_blocks(0), ReorgPeriod::Zero));
    assert!(matches!(
        ReorgPeriod::from_blocks(7),
        ReorgPeriod::Blocks(7)
    ));
    assert_eq!(ReorgPeriod::from_blocks(0).as_blocks().unwrap(), 0);
    assert_eq!(ReorgPeriod::from_blocks(7).as_blocks().unwrap(), 7);
    assert!(ReorgPeriod::Tag("finalized".to_string()).as_blocks().is_err());
    assert!(ReorgPeriod::from_blocks(0).is_none());
    assert!(!ReorgPeriod::from_blocks(7).is_none());
}

#[test]
fn domain_classification() {
    assert_eq!(
        KnownAetheriumDomain::Ethereum.domain_type(),
        AetheriumDomainType::Mainnet
    );
    assert_eq!(
        KnownAetheriumDomain::Sepolia.domain_type(),
        AetheriumDomainType::Testnet
    );
    assert_eq!(
        KnownAetheriumDomain::Test1.domain_type(),
        AetheriumDomainType::LocalTestChain
    );
    assert_eq!(
        KnownAetheriumDomain::Osmosis.domain_protocol(),
        AetheriumDomainProtocol::Cosmos
    );
    assert_eq!(
        KnownAetheriumDomain::SolanaMainnet.domain_protocol(),
        AetheriumDomainProtocol::Sealevel
    );
    assert_eq!(
        KnownAetheriumDomain::FuelTest1.domain_protocol(),
        AetheriumDomainProtocol::Fuel
    );
    assert_eq!(
        KnownAetheriumDomain::Ethereum.domain_protocol(),
        AetheriumDomainProtocol::Ethereum
    );
    assert_eq!(
        KnownAetheriumDomain::Arbitrum.domain_technical_stack(),
        AetheriumDomainTechnicalStack::ArbitrumNitro
    );
    assert_eq!(
        KnownAetheriumDomain::Optimism.domain_technical_stack(),
        AetheriumDomainTechnicalStack::OpStack
    );
    assert_eq!(
        KnownAetheriumDomain::Ethereum.domain_technical_stack(),
        AetheriumDomainTechnicalStack::Other
    );
}

#[test]
fn domain_accessors() {
    let domain = AetheriumDomain::Known(KnownAetheriumDomain::Optimism);
    assert_eq!(domain.id(), 10);
    assert_eq!(domain.name(), "optimism");
    assert_eq!(domain.domain_type(), AetheriumDomainType::Mainnet);
    assert_eq!(domain.domain_protocol(), AetheriumDomainProtocol::Ethereum);
    assert!(!domain.is_arbitrum_nitro());
    assert!(domain.is_zksync_stack() == false);
    assert!(!domain.is_injective());
    assert!(AetheriumDomain::Known(KnownAetheriumDomain::Injective).is_injective());
    assert!(AetheriumDomain::Known(KnownAetheriumDomain::Arbitrum).is_arbitrum_nitro());
    assert!(AetheriumDomain::Known(KnownAetheriumDomain::Zksync).is_zksync_stack());
    assert_eq!(domain.index_mode(), IndexMode::Block);
    assert_eq!(
        AetheriumDomain::Known(KnownAetheriumDomain::SolanaMainnet).index_mode(),
        IndexMode::Sequence
    );
    assert_eq!(
        domain,
        AetheriumDomain::Known(KnownAetheriumDomain::Optimism)
    );
    assert_ne!(
        domain,
        AetheriumDomain::Known(KnownAetheriumDomain::Ethereum)
    );
}

#[test]
fn new_test_domain_fields() {
    let domain = AetheriumDomain::new_test_domain("test");
    assert_eq!(domain.id(), 0);
    assert_eq!(domain.name(), "test");
    assert_eq!(domain.domain_type(), AetheriumDomainType::LocalTestChain);
    assert_eq!(domain.domain_protocol(), AetheriumDomainProtocol::Ethereum);
    assert_eq!(
        domain.domain_technical_stack(),
        AetheriumDomainTechnicalStack::Other
    );
}

#[test]
fn from_config_known_domain() {
    let domain = AetheriumDomain::from_config(
        1,
        "Ethereum",
        AetheriumDomainProtocol::Ethereum,
        AetheriumDomainTechnicalStack::Other,
    )
    .unwrap();
    assert_eq!(
        domain,
        AetheriumDomain::Known(KnownAetheriumDomain::Ethereum)
    );
}

#[test]
fn from_config_wrong_name_for_known_id() {
    let err = AetheriumDomain::from_config(
        1,
        "Optimism",
        AetheriumDomainProtocol::Ethereum,
        AetheriumDomainTechnicalStack::Other,
    )
    .unwrap_err();
    assert_eq!(
        err,
        AetheriumDomainConfigError::UnknownDomainName("optimism".to_string())
    );
}

#[test]
fn from_config_known_name_under_foreign_id() {
    let err = AetheriumDomain::from_config(
        4242,
        "Ethereum",
        AetheriumDomainProtocol::Ethereum,
        AetheriumDomainTechnicalStack::Other,
    )
    .unwrap_err();
    assert_eq!(
        err,
        AetheriumDomainConfigError::DomainNameMismatch("ethereum".to_string(), 4242)
    );
}

#[test]
fn from_config_unknown_domain() {
    let domain = AetheriumDomain::from_config(
        4242,
        "MyChain",
        AetheriumDomainProtocol::Cosmos,
        AetheriumDomainTechnicalStack::OpStack,
    )
    .unwrap();
    assert_eq!(domain.id(), 4242);
    assert_eq!(domain.name(), "mychain");
    assert_eq!(domain.domain_type(), AetheriumDomainType::Unknown);
    assert_eq!(domain.domain_protocol(), AetheriumDomainProtocol::Cosmos);
    assert_eq!(
        domain.domain_technical_stack(),
        AetheriumDomainTechnicalStack::OpStack
    );
}

#[test]
fn decimals_per_protocol() {
    assert_eq!(
        aetherium::chain::decimals_by_protocol(AetheriumDomainProtocol::Cosmos),
        6
    );
    assert_eq!(
        aetherium::chain::decimals_by_protocol(AetheriumDomainProtocol::Sealevel),
        9
    );
    assert_eq!(
        aetherium::chain::decimals_by_protocol(AetheriumDomainProtocol::Ethereum),
        18
    );
    assert_eq!(
        aetherium::chain::decimals_by_protocol(AetheriumDomainProtocol::Fuel),
        18
    );
}

#[test]
fn contract_locator_description() {
    let domain = AetheriumDomain::Known(KnownAetheriumDomain::Ethereum);
    let locator = aetherium::ContractLocator::new(&domain, H256::from_low_u64_be(0xab));
    assert_eq!(
        locator.describe(),
        format!(
            "ethereum[@1]+contract:0x{}ab",
            "00".repeat(31)
        )
    );
    assert_eq!(aetherium::text::u32_to_decimal(0), "0");
    assert_eq!(aetherium::text::u32_to_decimal(4200), "4200");
    assert_eq!(aetherium::text::u32_to_decimal(u32::MAX), "4294967295");
}

#[test]
fn address_formatting() {
    let addr = H256::from_low_u64_be(0xabcdef);
    assert_eq!(
        AetheriumDomainProtocol::Ethereum.fmt_address(addr),
        "0x0000000000000000000000000000000000abcdef"
    );
    assert_eq!(
        AetheriumDomainProtocol::Cosmos.fmt_address(addr),
        "0x0000000000000000000000000000000000000000000000000000000000abcdef"
    );
}
