//! Chain identities: the set of known domains, their classification by
//! network type, protocol and technical stack, reorg-period configuration,
//! and helpers tied to a domain's protocol.

use vstd::prelude::*;
use vstd::string::{StringExecFns, StringSliceAdditionalSpecFns};

use crate::error::{AetheriumProtocolError, ChainCommunicationError};
use crate::primitives::{spec_to_hex, H256};
use crate::text::{
    ascii_lowercase, eq_ignore_ascii_case, parse_u32, spec_all_digits, spec_digits_value,
    spec_eq_ignore_ascii_case, spec_lower, spec_u32_decimal, u32_to_decimal,
};

verus! {

/// Names a contract on a given domain.
#[derive(Debug, Clone)]
pub struct ContractLocator<'a> {
    pub domain: &'a AetheriumDomain,
    pub address: H256,
}

impl<'a> ContractLocator<'a> {
    /// Pairs a domain with a contract address on it.
    pub fn new(domain: &'a AetheriumDomain, address: H256) -> (r: ContractLocator<'a>)
        ensures
            r.domain == domain,
            r.address == address,
    {
        ContractLocator { domain, address }
    }

    /// Renders the locator as `name[@id]+contract:0x…`.
    pub fn describe(&self) -> (r: String)
        ensures
            r@ == self.domain.spec_name() + "[@"@ + spec_u32_decimal(self.domain.spec_id() as int)
                + "]+contract:"@ + "0x"@ + spec_to_hex(self.address@),
    {
        let mut s = self.domain.name().to_owned();
        s.append("[@");
        let id_text = u32_to_decimal(self.domain.id());
        s.append(id_text.as_str());
        s.append("]+contract:");
        let addr_text = crate::primitives::encode_hex_prefixed(self.address.as_bytes());
        s.append(addr_text.as_str());
        s
    }
}

/// How logs on a chain are indexed: by block ranges or by sequence numbers.
#[derive(Debug, Clone, Copy, PartialEq, Eq, Structural)]
pub enum IndexMode {
    Block,
    Sequence,
}

/// How many blocks (or which chain-specific tag) to wait out reorgs.
#[derive(Debug, Clone)]
pub enum ReorgPeriod {
    Zero,
    Blocks(u32),
    Tag(String),
}

impl ReorgPeriod {
    /// A `Blocks` value always carries a positive count.
    pub open spec fn well_formed(&self) -> bool {
        self matches ReorgPeriod::Blocks(b) ==> b > 0
    }

    /// Builds a period from a block count; zero means no waiting.
    pub fn from_blocks(blocks: u32) -> (r: ReorgPeriod)
        ensures
            blocks == 0 ==> r matches ReorgPeriod::Zero,
            blocks > 0 ==> (r matches ReorgPeriod::Blocks(b) && b == blocks),
            r.well_formed(),
    {
        if blocks == 0 {
            ReorgPeriod::Zero
        } else {
            ReorgPeriod::Blocks(blocks)
        }
    }

    /// The period as a block count; a tag cannot be converted.
    pub fn as_blocks(&self) -> (r: Result<u32, ChainCommunicationError>)
        ensures
            match self {
                ReorgPeriod::Zero => r matches Ok(b) && b == 0,
                ReorgPeriod::Blocks(blocks) => r matches Ok(b) && b == blocks,
                ReorgPeriod::Tag(_) => r matches Err(e) && e is InvalidReorgPeriod,
            },
    {
        match self {
            ReorgPeriod::Zero => Ok(0),
            ReorgPeriod::Blocks(blocks) => Ok(*blocks),
            ReorgPeriod::Tag(_) => Err(ChainCommunicationError::InvalidReorgPeriod(self.clone())),
        }
    }

    /// True exactly for the empty period.
    pub fn is_none(&self) -> (r: bool)
        ensures
            r == (self is Zero),
    {
        matches!(self, ReorgPeriod::Zero)
    }

    /// Reads a period from text: a decimal number is a block count (zero
    /// meaning none), anything else is a chain-specific tag.
    pub fn from_text(s: &str) -> (r: ReorgPeriod)
        ensures
            ({
                let digits = spec_all_digits(s.spec_bytes()) && spec_digits_value(s.spec_bytes())
                    <= u32::MAX;
                &&& digits && spec_digits_value(s.spec_bytes()) == 0 ==> (r matches
                ReorgPeriod::Zero)
                &&& digits && spec_digits_value(s.spec_bytes()) > 0 ==> (r matches
                ReorgPeriod::Blocks(b) && b == spec_digits_value(s.spec_bytes()))
                &&& !digits ==> (r matches ReorgPeriod::Tag(t) && t@ == s@)
            }),
            r.well_formed(),
    {
        match parse_u32(s) {
            Some(v) => ReorgPeriod::from_blocks(v),
            None => ReorgPeriod::Tag(s.to_owned()),
        }
    }
}

impl Default for ReorgPeriod {
    fn default() -> (r: ReorgPeriod)
        ensures
            r matches ReorgPeriod::Zero,
    {
        ReorgPeriod::Zero
    }
}

/// All domains known to this crate by name and id.
#[derive(Debug, Clone, Copy, PartialEq, Eq, Structural, Hash)]
pub enum KnownAetheriumDomain {
    Ancient8,
    Arbitrum,
    Avalanche,
    BinanceSmartChain,
    Blast,
    Bob,
    Celo,
    Cheesechain,
    Cyber,
    DegenChain,
    EclipseMainnet,
    Endurance,
    Ethereum,
    Fraxtal,
    Fuji,
    FuseMainnet,
    Gnosis,
    InEvm,
    Injective,
    Kroma,
    Linea,
    Lisk,
    Lukso,
    MantaPacific,
    Mantle,
    Merlin,
    Metis,
    Mint,
    Mode,
    Moonbeam,
    Neutron,
    Optimism,
    Osmosis,
    Polygon,
    ProofOfPlay,
    ReAl,
    Redstone,
    Sanko,
    Sei,
    SolanaMainnet,
    Taiko,
    Tangle,
    Treasure,
    Viction,
    Worldchain,
    Xai,
    Xlayer,
    Zetachain,
    Zeronetwork,
    Zklink,
    Zksync,
    Zircuit,
    ZoraMainnet,
    Test1,
    Test2,
    Test3,
    FuelTest1,
    SealevelTest1,
    SealevelTest2,
    CosmosTest99990,
    CosmosTest99991,
    Abstracttestnet,
    Alfajores,
    BinanceSmartChainTestnet,
    Chiado,
    ConnextSepolia,
    Holesky,
    MoonbaseAlpha,
    PlumeTestnet,
    ScrollSepolia,
    Sepolia,
    SuperpositionTestnet,
    Treasuretopaz,
}

/// The numeric id of each known domain.
pub open spec fn spec_domain_id(d: KnownAetheriumDomain) -> u32 {
    match d {
        KnownAetheriumDomain::Ancient8 => 888888888,
        KnownAetheriumDomain::Arbitrum => 42161,
        KnownAetheriumDomain::Avalanche => 43114,
        KnownAetheriumDomain::BinanceSmartChain => 56,
        KnownAetheriumDomain::Blast => 81457,
        KnownAetheriumDomain::Bob => 60808,
        KnownAetheriumDomain::Celo => 42220,
        KnownAetheriumDomain::Cheesechain => 383353,
        KnownAetheriumDomain::Cyber => 7560,
        KnownAetheriumDomain::DegenChain => 666666666,
        KnownAetheriumDomain::EclipseMainnet => 1408864445,
        KnownAetheriumDomain::Endurance => 648,
        KnownAetheriumDomain::Ethereum => 1,
        KnownAetheriumDomain::Fraxtal => 252,
        KnownAetheriumDomain::Fuji => 43113,
        KnownAetheriumDomain::FuseMainnet => 122,
        KnownAetheriumDomain::Gnosis => 100,
        KnownAetheriumDomain::InEvm => 2525,
        KnownAetheriumDomain::Injective => 6909546,
        KnownAetheriumDomain::Kroma => 255,
        KnownAetheriumDomain::Linea => 59144,
        KnownAetheriumDomain::Lisk => 1135,
        KnownAetheriumDomain::Lukso => 42,
        KnownAetheriumDomain::MantaPacific => 169,
        KnownAetheriumDomain::Mantle => 5000,
        KnownAetheriumDomain::Merlin => 4200,
        KnownAetheriumDomain::Metis => 1088,
        KnownAetheriumDomain::Mint => 185,
        KnownAetheriumDomain::Mode => 34443,
        KnownAetheriumDomain::Moonbeam => 1284,
        KnownAetheriumDomain::Neutron => 1853125230,
        KnownAetheriumDomain::Optimism => 10,
        KnownAetheriumDomain::Osmosis => 875,
        KnownAetheriumDomain::Polygon => 137,
        KnownAetheriumDomain::ProofOfPlay => 70700,
        KnownAetheriumDomain::ReAl => 111188,
        KnownAetheriumDomain::Redstone => 690,
        KnownAetheriumDomain::Sanko => 1996,
        KnownAetheriumDomain::Sei => 1329,
        KnownAetheriumDomain::SolanaMainnet => 1399811149,
        KnownAetheriumDomain::Taiko => 167000,
        KnownAetheriumDomain::Tangle => 5845,
        KnownAetheriumDomain::Treasure => 61166,
        KnownAetheriumDomain::Viction => 88,
        KnownAetheriumDomain::Worldchain => 480,
        KnownAetheriumDomain::Xai => 660279,
        KnownAetheriumDomain::Xlayer => 196,
        KnownAetheriumDomain::Zetachain => 7000,
        KnownAetheriumDomain::Zeronetwork => 543210,
        KnownAetheriumDomain::Zklink => 810180,
        KnownAetheriumDomain::Zksync => 324,
        KnownAetheriumDomain::Zircuit => 48900,
        KnownAetheriumDomain::ZoraMainnet => 7777777,
        KnownAetheriumDomain::Test1 => 9913371,
        KnownAetheriumDomain::Test2 => 9913372,
        KnownAetheriumDomain::Test3 => 9913373,
        KnownAetheriumDomain::FuelTest1 => 13374,
        KnownAetheriumDomain::SealevelTest1 => 13375,
        KnownAetheriumDomain::SealevelTest2 => 13376,
        KnownAetheriumDomain::CosmosTest99990 => 99990,
        KnownAetheriumDomain::CosmosTest99991 => 99991,
        KnownAetheriumDomain::Abstracttestnet => 11124,
        KnownAetheriumDomain::Alfajores => 44787,
        KnownAetheriumDomain::BinanceSmartChainTestnet => 97,
        KnownAetheriumDomain::Chiado => 10200,
        KnownAetheriumDomain::ConnextSepolia => 6398,
        KnownAetheriumDomain::Holesky => 17000,
        KnownAetheriumDomain::MoonbaseAlpha => 1287,
        KnownAetheriumDomain::PlumeTestnet => 161221135,
        KnownAetheriumDomain::ScrollSepolia => 534351,
        KnownAetheriumDomain::Sepolia => 11155111,
        KnownAetheriumDomain::SuperpositionTestnet => 98985,
        KnownAetheriumDomain::Treasuretopaz => 978658,
    }
}

/// The lower-case name of each known domain.
pub open spec fn spec_domain_name(d: KnownAetheriumDomain) -> Seq<char> {
    match d {
        KnownAetheriumDomain::Ancient8 => "ancient8"@,
        KnownAetheriumDomain::Arbitrum => "arbitrum"@,
        KnownAetheriumDomain::Avalanche => "avalanche"@,
        KnownAetheriumDomain::BinanceSmartChain => "bsc"@,
        KnownAetheriumDomain::Blast => "blast"@,
        KnownAetheriumDomain::Bob => "bob"@,
        KnownAetheriumDomain::Celo => "celo"@,
        KnownAetheriumDomain::Cheesechain => "cheesechain"@,
        KnownAetheriumDomain::Cyber => "cyber"@,
        KnownAetheriumDomain::DegenChain => "degenchain"@,
        KnownAetheriumDomain::EclipseMainnet => "eclipsemainnet"@,
        KnownAetheriumDomain::Endurance => "endurance"@,
        KnownAetheriumDomain::Ethereum => "ethereum"@,
        KnownAetheriumDomain::Fraxtal => "fraxtal"@,
        KnownAetheriumDomain::Fuji => "fuji"@,
        KnownAetheriumDomain::FuseMainnet => "fusemainnet"@,
        KnownAetheriumDomain::Gnosis => "gnosis"@,
        KnownAetheriumDomain::InEvm => "inevm"@,
        KnownAetheriumDomain::Injective => "injective"@,
        KnownAetheriumDomain::Kroma => "kroma"@,
        KnownAetheriumDomain::Linea => "linea"@,
        KnownAetheriumDomain::Lisk => "lisk"@,
        KnownAetheriumDomain::Lukso => "lukso"@,
        KnownAetheriumDomain::MantaPacific => "mantapacific"@,
        KnownAetheriumDomain::Mantle => "mantle"@,
        KnownAetheriumDomain::Merlin => "merlin"@,
        KnownAetheriumDomain::Metis => "metis"@,
        KnownAetheriumDomain::Mint => "mint"@,
        KnownAetheriumDomain::Mode => "mode"@,
        KnownAetheriumDomain::Moonbeam => "moonbeam"@,
        KnownAetheriumDomain::Neutron => "neutron"@,
        KnownAetheriumDomain::Optimism => "optimism"@,
        KnownAetheriumDomain::Osmosis => "osmosis"@,
        KnownAetheriumDomain::Polygon => "polygon"@,
        KnownAetheriumDomain::ProofOfPlay => "proofofplay"@,
        KnownAetheriumDomain::ReAl => "real"@,
        KnownAetheriumDomain::Redstone => "redstone"@,
        KnownAetheriumDomain::Sanko => "sanko"@,
        KnownAetheriumDomain::Sei => "sei"@,
        KnownAetheriumDomain::SolanaMainnet => "solanamainnet"@,
        KnownAetheriumDomain::Taiko => "taiko"@,
        KnownAetheriumDomain::Tangle => "tangle"@,
        KnownAetheriumDomain::Treasure => "treasure"@,
        KnownAetheriumDomain::Viction => "viction"@,
        KnownAetheriumDomain::Worldchain => "worldchain"@,
        KnownAetheriumDomain::Xai => "xai"@,
        KnownAetheriumDomain::Xlayer => "xlayer"@,
        KnownAetheriumDomain::Zetachain => "zetachain"@,
        KnownAetheriumDomain::Zeronetwork => "zeronetwork"@,
        KnownAetheriumDomain::Zklink => "zklink"@,
        KnownAetheriumDomain::Zksync => "zksync"@,
        KnownAetheriumDomain::Zircuit => "zircuit"@,
        KnownAetheriumDomain::ZoraMainnet => "zoramainnet"@,
        KnownAetheriumDomain::Test1 => "test1"@,
        KnownAetheriumDomain::Test2 => "test2"@,
        KnownAetheriumDomain::Test3 => "test3"@,
        KnownAetheriumDomain::FuelTest1 => "fueltest1"@,
        KnownAetheriumDomain::SealevelTest1 => "sealeveltest1"@,
        KnownAetheriumDomain::SealevelTest2 => "sealeveltest2"@,
        KnownAetheriumDomain::CosmosTest99990 => "cosmostest99990"@,
        KnownAetheriumDomain::CosmosTest99991 => "cosmostest99991"@,
        KnownAetheriumDomain::Abstracttestnet => "abstracttestnet"@,
        KnownAetheriumDomain::Alfajores => "alfajores"@,
        KnownAetheriumDomain::BinanceSmartChainTestnet => "bsctestnet"@,
        KnownAetheriumDomain::Chiado => "chiado"@,
        KnownAetheriumDomain::ConnextSepolia => "connextsepolia"@,
        KnownAetheriumDomain::Holesky => "holesky"@,
        KnownAetheriumDomain::MoonbaseAlpha => "moonbasealpha"@,
        KnownAetheriumDomain::PlumeTestnet => "plumetestnet"@,
        KnownAetheriumDomain::ScrollSepolia => "scrollsepolia"@,
        KnownAetheriumDomain::Sepolia => "sepolia"@,
        KnownAetheriumDomain::SuperpositionTestnet => "superpositiontestnet"@,
        KnownAetheriumDomain::Treasuretopaz => "treasuretopaz"@,
    }
}

/// The known domain with the given id, if any.
pub open spec fn spec_domain_from_id(id: u32) -> Option<KnownAetheriumDomain> {
    match id {
        888888888u32 => Some(KnownAetheriumDomain::Ancient8),
        42161u32 => Some(KnownAetheriumDomain::Arbitrum),
        43114u32 => Some(KnownAetheriumDomain::Avalanche),
        56u32 => Some(KnownAetheriumDomain::BinanceSmartChain),
        81457u32 => Some(KnownAetheriumDomain::Blast),
        60808u32 => Some(KnownAetheriumDomain::Bob),
        42220u32 => Some(KnownAetheriumDomain::Celo),
        383353u32 => Some(KnownAetheriumDomain::Cheesechain),
        7560u32 => Some(KnownAetheriumDomain::Cyber),
        666666666u32 => Some(KnownAetheriumDomain::DegenChain),
        1408864445u32 => Some(KnownAetheriumDomain::EclipseMainnet),
        648u32 => Some(KnownAetheriumDomain::Endurance),
        1u32 => Some(KnownAetheriumDomain::Ethereum),
        252u32 => Some(KnownAetheriumDomain::Fraxtal),
        43113u32 => Some(KnownAetheriumDomain::Fuji),
        122u32 => Some(KnownAetheriumDomain::FuseMainnet),
        100u32 => Some(KnownAetheriumDomain::Gnosis),
        2525u32 => Some(KnownAetheriumDomain::InEvm),
        6909546u32 => Some(KnownAetheriumDomain::Injective),
        255u32 => Some(KnownAetheriumDomain::Kroma),
        59144u32 => Some(KnownAetheriumDomain::Linea),
        1135u32 => Some(KnownAetheriumDomain::Lisk),
        42u32 => Some(KnownAetheriumDomain::Lukso),
        169u32 => Some(KnownAetheriumDomain::MantaPacific),
        5000u32 => Some(KnownAetheriumDomain::Mantle),
        4200u32 => Some(KnownAetheriumDomain::Merlin),
        1088u32 => Some(KnownAetheriumDomain::Metis),
        185u32 => Some(KnownAetheriumDomain::Mint),
        34443u32 => Some(KnownAetheriumDomain::Mode),
        1284u32 => Some(KnownAetheriumDomain::Moonbeam),
        1853125230u32 => Some(KnownAetheriumDomain::Neutron),
        10u32 => Some(KnownAetheriumDomain::Optimism),
        875u32 => Some(KnownAetheriumDomain::Osmosis),
        137u32 => Some(KnownAetheriumDomain::Polygon),
        70700u32 => Some(KnownAetheriumDomain::ProofOfPlay),
        111188u32 => Some(KnownAetheriumDomain::ReAl),
        690u32 => Some(KnownAetheriumDomain::Redstone),
        1996u32 => Some(KnownAetheriumDomain::Sanko),
        1329u32 => Some(KnownAetheriumDomain::Sei),
        1399811149u32 => Some(KnownAetheriumDomain::SolanaMainnet),
        167000u32 => Some(KnownAetheriumDomain::Taiko),
        5845u32 => Some(KnownAetheriumDomain::Tangle),
        61166u32 => Some(KnownAetheriumDomain::Treasure),
        88u32 => Some(KnownAetheriumDomain::Viction),
        480u32 => Some(KnownAetheriumDomain::Worldchain),
        660279u32 => Some(KnownAetheriumDomain::Xai),
        196u32 => Some(KnownAetheriumDomain::Xlayer),
        7000u32 => Some(KnownAetheriumDomain::Zetachain),
        543210u32 => Some(KnownAetheriumDomain::Zeronetwork),
        810180u32 => Some(KnownAetheriumDomain::Zklink),
        324u32 => Some(KnownAetheriumDomain::Zksync),
        48900u32 => Some(KnownAetheriumDomain::Zircuit),
        7777777u32 => Some(KnownAetheriumDomain::ZoraMainnet),
        9913371u32 => Some(KnownAetheriumDomain::Test1),
        9913372u32 => Some(KnownAetheriumDomain::Test2),
        9913373u32 => Some(KnownAetheriumDomain::Test3),
        13374u32 => Some(KnownAetheriumDomain::FuelTest1),
        13375u32 => Some(KnownAetheriumDomain::SealevelTest1),
        13376u32 => Some(KnownAetheriumDomain::SealevelTest2),
        99990u32 => Some(KnownAetheriumDomain::CosmosTest99990),
        99991u32 => Some(KnownAetheriumDomain::CosmosTest99991),
        11124u32 => Some(KnownAetheriumDomain::Abstracttestnet),
        44787u32 => Some(KnownAetheriumDomain::Alfajores),
        97u32 => Some(KnownAetheriumDomain::BinanceSmartChainTestnet),
        10200u32 => Some(KnownAetheriumDomain::Chiado),
        6398u32 => Some(KnownAetheriumDomain::ConnextSepolia),
        17000u32 => Some(KnownAetheriumDomain::Holesky),
        1287u32 => Some(KnownAetheriumDomain::MoonbaseAlpha),
        161221135u32 => Some(KnownAetheriumDomain::PlumeTestnet),
        534351u32 => Some(KnownAetheriumDomain::ScrollSepolia),
        11155111u32 => Some(KnownAetheriumDomain::Sepolia),
        98985u32 => Some(KnownAetheriumDomain::SuperpositionTestnet),
        978658u32 => Some(KnownAetheriumDomain::Treasuretopaz),
        _ => None,
    }
}

/// Types of domains.
#[derive(Debug, Clone, Copy, PartialEq, Eq, Structural)]
pub enum AetheriumDomainType {
    /// A mainnet.
    Mainnet,
    /// A testnet.
    Testnet,
    /// A local chain for testing.
    LocalTestChain,
    /// User-provided chain of an unknown domain type.
    Unknown,
}

/// Which backend family a domain speaks.
#[derive(Debug, Clone, Copy, PartialEq, Eq, Structural)]
pub enum AetheriumDomainProtocol {
    /// An EVM-based chain.
    Ethereum,
    /// A Fuel-based chain.
    Fuel,
    /// A Sealevel-based chain.
    Sealevel,
    /// A Cosmos-based chain.
    Cosmos,
}

/// The technical stack a domain is built on.
#[derive(Debug, Clone, Copy, PartialEq, Eq, Structural)]
pub enum AetheriumDomainTechnicalStack {
    ArbitrumNitro,
    OpStack,
    PolygonCDK,
    PolkadotSubstrate,
    ZkSync,
    Other,
}

impl Default for AetheriumDomainTechnicalStack {
    fn default() -> (r: AetheriumDomainTechnicalStack)
        ensures
            r == AetheriumDomainTechnicalStack::Other,
    {
        AetheriumDomainTechnicalStack::Other
    }
}

/// The network type of each known domain.
pub open spec fn spec_domain_type(d: KnownAetheriumDomain) -> AetheriumDomainType {
    match d {
        KnownAetheriumDomain::Ancient8 | KnownAetheriumDomain::Arbitrum
            | KnownAetheriumDomain::Avalanche | KnownAetheriumDomain::BinanceSmartChain
            | KnownAetheriumDomain::Blast | KnownAetheriumDomain::Bob | KnownAetheriumDomain::Celo
            | KnownAetheriumDomain::Cheesechain | KnownAetheriumDomain::Cyber
            | KnownAetheriumDomain::DegenChain | KnownAetheriumDomain::EclipseMainnet
            | KnownAetheriumDomain::Endurance | KnownAetheriumDomain::Ethereum
            | KnownAetheriumDomain::Fraxtal | KnownAetheriumDomain::FuseMainnet
            | KnownAetheriumDomain::Gnosis | KnownAetheriumDomain::InEvm
            | KnownAetheriumDomain::Injective | KnownAetheriumDomain::Kroma
            | KnownAetheriumDomain::Linea | KnownAetheriumDomain::Lisk
            | KnownAetheriumDomain::Lukso | KnownAetheriumDomain::MantaPacific
            | KnownAetheriumDomain::Mantle | KnownAetheriumDomain::Merlin
            | KnownAetheriumDomain::Metis | KnownAetheriumDomain::Mint
            | KnownAetheriumDomain::Mode | KnownAetheriumDomain::Moonbeam
            | KnownAetheriumDomain::Neutron | KnownAetheriumDomain::Optimism
            | KnownAetheriumDomain::Osmosis | KnownAetheriumDomain::Polygon
            | KnownAetheriumDomain::ProofOfPlay | KnownAetheriumDomain::ReAl
            | KnownAetheriumDomain::Redstone | KnownAetheriumDomain::Sanko
            | KnownAetheriumDomain::Sei | KnownAetheriumDomain::SolanaMainnet
            | KnownAetheriumDomain::Taiko | KnownAetheriumDomain::Tangle
            | KnownAetheriumDomain::Treasure | KnownAetheriumDomain::Viction
            | KnownAetheriumDomain::Worldchain | KnownAetheriumDomain::Xai
            | KnownAetheriumDomain::Xlayer | KnownAetheriumDomain::Zeronetwork
            | KnownAetheriumDomain::Zetachain | KnownAetheriumDomain::Zircuit
            | KnownAetheriumDomain::Zklink | KnownAetheriumDomain::Zksync
            | KnownAetheriumDomain::ZoraMainnet => AetheriumDomainType::Mainnet,
        KnownAetheriumDomain::Alfajores | KnownAetheriumDomain::BinanceSmartChainTestnet
            | KnownAetheriumDomain::Chiado | KnownAetheriumDomain::ConnextSepolia
            | KnownAetheriumDomain::Fuji | KnownAetheriumDomain::Holesky
            | KnownAetheriumDomain::MoonbaseAlpha | KnownAetheriumDomain::PlumeTestnet
            | KnownAetheriumDomain::ScrollSepolia | KnownAetheriumDomain::Sepolia
            | KnownAetheriumDomain::SuperpositionTestnet | KnownAetheriumDomain::Abstracttestnet
            | KnownAetheriumDomain::Treasuretopaz => AetheriumDomainType::Testnet,
        KnownAetheriumDomain::Test1 | KnownAetheriumDomain::Test2 | KnownAetheriumDomain::Test3
            | KnownAetheriumDomain::FuelTest1 | KnownAetheriumDomain::SealevelTest1
            | KnownAetheriumDomain::SealevelTest2 | KnownAetheriumDomain::CosmosTest99990
            | KnownAetheriumDomain::CosmosTest99991 => AetheriumDomainType::LocalTestChain,
    }
}

/// The protocol family of each known domain.
pub open spec fn spec_domain_protocol(d: KnownAetheriumDomain) -> AetheriumDomainProtocol {
    match d {
        KnownAetheriumDomain::FuelTest1 => AetheriumDomainProtocol::Fuel,
        KnownAetheriumDomain::EclipseMainnet | KnownAetheriumDomain::SolanaMainnet
            | KnownAetheriumDomain::SealevelTest1 | KnownAetheriumDomain::SealevelTest2 =>
            AetheriumDomainProtocol::Sealevel,
        KnownAetheriumDomain::Injective | KnownAetheriumDomain::Neutron
            | KnownAetheriumDomain::Osmosis | KnownAetheriumDomain::CosmosTest99990
            | KnownAetheriumDomain::CosmosTest99991 => AetheriumDomainProtocol::Cosmos,
        _ => AetheriumDomainProtocol::Ethereum,
    }
}

/// The technical stack of each known domain.
pub open spec fn spec_domain_technical_stack(d: KnownAetheriumDomain)
    -> AetheriumDomainTechnicalStack {
    match d {
        KnownAetheriumDomain::Arbitrum | KnownAetheriumDomain::Cheesechain
            | KnownAetheriumDomain::DegenChain | KnownAetheriumDomain::InEvm
            | KnownAetheriumDomain::ProofOfPlay | KnownAetheriumDomain::ReAl
            | KnownAetheriumDomain::Sanko | KnownAetheriumDomain::Xai
            | KnownAetheriumDomain::ConnextSepolia | KnownAetheriumDomain::PlumeTestnet
            | KnownAetheriumDomain::SuperpositionTestnet =>
            AetheriumDomainTechnicalStack::ArbitrumNitro,
        KnownAetheriumDomain::Ancient8 | KnownAetheriumDomain::Blast | KnownAetheriumDomain::Bob
            | KnownAetheriumDomain::Cyber | KnownAetheriumDomain::Fraxtal
            | KnownAetheriumDomain::Kroma | KnownAetheriumDomain::Lisk
            | KnownAetheriumDomain::MantaPacific | KnownAetheriumDomain::Mantle
            | KnownAetheriumDomain::Metis | KnownAetheriumDomain::Mint
            | KnownAetheriumDomain::Mode | KnownAetheriumDomain::Optimism
            | KnownAetheriumDomain::Redstone | KnownAetheriumDomain::Worldchain
            | KnownAetheriumDomain::Zircuit | KnownAetheriumDomain::ZoraMainnet =>
            AetheriumDomainTechnicalStack::OpStack,
        KnownAetheriumDomain::Merlin | KnownAetheriumDomain::Xlayer =>
            AetheriumDomainTechnicalStack::PolygonCDK,
        KnownAetheriumDomain::Moonbeam | KnownAetheriumDomain::Tangle =>
            AetheriumDomainTechnicalStack::PolkadotSubstrate,
        KnownAetheriumDomain::Abstracttestnet | KnownAetheriumDomain::Treasure
            | KnownAetheriumDomain::Treasuretopaz | KnownAetheriumDomain::Zeronetwork
            | KnownAetheriumDomain::Zklink | KnownAetheriumDomain::Zksync =>
            AetheriumDomainTechnicalStack::ZkSync,
        _ => AetheriumDomainTechnicalStack::Other,
    }
}

impl KnownAetheriumDomain {
    /// The numeric id of this domain.
    pub fn id(self) -> (r: u32)
        ensures
            r == spec_domain_id(self),
    {
        match self {
            KnownAetheriumDomain::Ancient8 => 888888888,
            KnownAetheriumDomain::Arbitrum => 42161,
            KnownAetheriumDomain::Avalanche => 43114,
            KnownAetheriumDomain::BinanceSmartChain => 56,
            KnownAetheriumDomain::Blast => 81457,
            KnownAetheriumDomain::Bob => 60808,
            KnownAetheriumDomain::Celo => 42220,
            KnownAetheriumDomain::Cheesechain => 383353,
            KnownAetheriumDomain::Cyber => 7560,
            KnownAetheriumDomain::DegenChain => 666666666,
            KnownAetheriumDomain::EclipseMainnet => 1408864445,
            KnownAetheriumDomain::Endurance => 648,
            KnownAetheriumDomain::Ethereum => 1,
            KnownAetheriumDomain::Fraxtal => 252,
            KnownAetheriumDomain::Fuji => 43113,
            KnownAetheriumDomain::FuseMainnet => 122,
            KnownAetheriumDomain::Gnosis => 100,
            KnownAetheriumDomain::InEvm => 2525,
            KnownAetheriumDomain::Injective => 6909546,
            KnownAetheriumDomain::Kroma => 255,
            KnownAetheriumDomain::Linea => 59144,
            KnownAetheriumDomain::Lisk => 1135,
            KnownAetheriumDomain::Lukso => 42,
            KnownAetheriumDomain::MantaPacific => 169,
            KnownAetheriumDomain::Mantle => 5000,
            KnownAetheriumDomain::Merlin => 4200,
            KnownAetheriumDomain::Metis => 1088,
            KnownAetheriumDomain::Mint => 185,
            KnownAetheriumDomain::Mode => 34443,
            KnownAetheriumDomain::Moonbeam => 1284,
            KnownAetheriumDomain::Neutron => 1853125230,
            KnownAetheriumDomain::Optimism => 10,
            KnownAetheriumDomain::Osmosis => 875,
            KnownAetheriumDomain::Polygon => 137,
            KnownAetheriumDomain::ProofOfPlay => 70700,
            KnownAetheriumDomain::ReAl => 111188,
            KnownAetheriumDomain::Redstone => 690,
            KnownAetheriumDomain::Sanko => 1996,
            KnownAetheriumDomain::Sei => 1329,
            KnownAetheriumDomain::SolanaMainnet => 1399811149,
            KnownAetheriumDomain::Taiko => 167000,
            KnownAetheriumDomain::Tangle => 5845,
            KnownAetheriumDomain::Treasure => 61166,
            KnownAetheriumDomain::Viction => 88,
            KnownAetheriumDomain::Worldchain => 480,
            KnownAetheriumDomain::Xai => 660279,
            KnownAetheriumDomain::Xlayer => 196,
            KnownAetheriumDomain::Zetachain => 7000,
            KnownAetheriumDomain::Zeronetwork => 543210,
            KnownAetheriumDomain::Zklink => 810180,
            KnownAetheriumDomain::Zksync => 324,
            KnownAetheriumDomain::Zircuit => 48900,
            KnownAetheriumDomain::ZoraMainnet => 7777777,
            KnownAetheriumDomain::Test1 => 9913371,
            KnownAetheriumDomain::Test2 => 9913372,
            KnownAetheriumDomain::Test3 => 9913373,
            KnownAetheriumDomain::FuelTest1 => 13374,
            KnownAetheriumDomain::SealevelTest1 => 13375,
            KnownAetheriumDomain::SealevelTest2 => 13376,
            KnownAetheriumDomain::CosmosTest99990 => 99990,
            KnownAetheriumDomain::CosmosTest99991 => 99991,
            KnownAetheriumDomain::Abstracttestnet => 11124,
            KnownAetheriumDomain::Alfajores => 44787,
            KnownAetheriumDomain::BinanceSmartChainTestnet => 97,
            KnownAetheriumDomain::Chiado => 10200,
            KnownAetheriumDomain::ConnextSepolia => 6398,
            KnownAetheriumDomain::Holesky => 17000,
            KnownAetheriumDomain::MoonbaseAlpha => 1287,
            KnownAetheriumDomain::PlumeTestnet => 161221135,
            KnownAetheriumDomain::ScrollSepolia => 534351,
            KnownAetheriumDomain::Sepolia => 11155111,
            KnownAetheriumDomain::SuperpositionTestnet => 98985,
            KnownAetheriumDomain::Treasuretopaz => 978658,
        }
    }

    /// The known domain with the given id.
    pub fn from_id(id: u32) -> (r: Result<KnownAetheriumDomain, AetheriumProtocolError>)
        ensures
            match r {
                Ok(d) => spec_domain_from_id(id) == Some(d),
                Err(e) => spec_domain_from_id(id) is None && (e matches
                AetheriumProtocolError::UnknownDomainId(i) && i == id),
            },
    {
        match id {
            888888888u32 => Ok(KnownAetheriumDomain::Ancient8),
            42161u32 => Ok(KnownAetheriumDomain::Arbitrum),
            43114u32 => Ok(KnownAetheriumDomain::Avalanche),
            56u32 => Ok(KnownAetheriumDomain::BinanceSmartChain),
            81457u32 => Ok(KnownAetheriumDomain::Blast),
            60808u32 => Ok(KnownAetheriumDomain::Bob),
            42220u32 => Ok(KnownAetheriumDomain::Celo),
            383353u32 => Ok(KnownAetheriumDomain::Cheesechain),
            7560u32 => Ok(KnownAetheriumDomain::Cyber),
            666666666u32 => Ok(KnownAetheriumDomain::DegenChain),
            1408864445u32 => Ok(KnownAetheriumDomain::EclipseMainnet),
            648u32 => Ok(KnownAetheriumDomain::Endurance),
            1u32 => Ok(KnownAetheriumDomain::Ethereum),
            252u32 => Ok(KnownAetheriumDomain::Fraxtal),
            43113u32 => Ok(KnownAetheriumDomain::Fuji),
            122u32 => Ok(KnownAetheriumDomain::FuseMainnet),
            100u32 => Ok(KnownAetheriumDomain::Gnosis),
            2525u32 => Ok(KnownAetheriumDomain::InEvm),
            6909546u32 => Ok(KnownAetheriumDomain::Injective),
            255u32 => Ok(KnownAetheriumDomain::Kroma),
            59144u32 => Ok(KnownAetheriumDomain::Linea),
            1135u32 => Ok(KnownAetheriumDomain::Lisk),
            42u32 => Ok(KnownAetheriumDomain::Lukso),
            169u32 => Ok(KnownAetheriumDomain::MantaPacific),
            5000u32 => Ok(KnownAetheriumDomain::Mantle),
            4200u32 => Ok(KnownAetheriumDomain::Merlin),
            1088u32 => Ok(KnownAetheriumDomain::Metis),
            185u32 => Ok(KnownAetheriumDomain::Mint),
            34443u32 => Ok(KnownAetheriumDomain::Mode),
            1284u32 => Ok(KnownAetheriumDomain::Moonbeam),
            1853125230u32 => Ok(KnownAetheriumDomain::Neutron),
            10u32 => Ok(KnownAetheriumDomain::Optimism),
            875u32 => Ok(KnownAetheriumDomain::Osmosis),
            137u32 => Ok(KnownAetheriumDomain::Polygon),
            70700u32 => Ok(KnownAetheriumDomain::ProofOfPlay),
            111188u32 => Ok(KnownAetheriumDomain::ReAl),
            690u32 => Ok(KnownAetheriumDomain::Redstone),
            1996u32 => Ok(KnownAetheriumDomain::Sanko),
            1329u32 => Ok(KnownAetheriumDomain::Sei),
            1399811149u32 => Ok(KnownAetheriumDomain::SolanaMainnet),
            167000u32 => Ok(KnownAetheriumDomain::Taiko),
            5845u32 => Ok(KnownAetheriumDomain::Tangle),
            61166u32 => Ok(KnownAetheriumDomain::Treasure),
            88u32 => Ok(KnownAetheriumDomain::Viction),
            480u32 => Ok(KnownAetheriumDomain::Worldchain),
            660279u32 => Ok(KnownAetheriumDomain::Xai),
            196u32 => Ok(KnownAetheriumDomain::Xlayer),
            7000u32 => Ok(KnownAetheriumDomain::Zetachain),
            543210u32 => Ok(KnownAetheriumDomain::Zeronetwork),
            810180u32 => Ok(KnownAetheriumDomain::Zklink),
            324u32 => Ok(KnownAetheriumDomain::Zksync),
            48900u32 => Ok(KnownAetheriumDomain::Zircuit),
            7777777u32 => Ok(KnownAetheriumDomain::ZoraMainnet),
            9913371u32 => Ok(KnownAetheriumDomain::Test1),
            9913372u32 => Ok(KnownAetheriumDomain::Test2),
            9913373u32 => Ok(KnownAetheriumDomain::Test3),
            13374u32 => Ok(KnownAetheriumDomain::FuelTest1),
            13375u32 => Ok(KnownAetheriumDomain::SealevelTest1),
            13376u32 => Ok(KnownAetheriumDomain::SealevelTest2),
            99990u32 => Ok(KnownAetheriumDomain::CosmosTest99990),
            99991u32 => Ok(KnownAetheriumDomain::CosmosTest99991),
            11124u32 => Ok(KnownAetheriumDomain::Abstracttestnet),
            44787u32 => Ok(KnownAetheriumDomain::Alfajores),
            97u32 => Ok(KnownAetheriumDomain::BinanceSmartChainTestnet),
            10200u32 => Ok(KnownAetheriumDomain::Chiado),
            6398u32 => Ok(KnownAetheriumDomain::ConnextSepolia),
            17000u32 => Ok(KnownAetheriumDomain::Holesky),
            1287u32 => Ok(KnownAetheriumDomain::MoonbaseAlpha),
            161221135u32 => Ok(KnownAetheriumDomain::PlumeTestnet),
            534351u32 => Ok(KnownAetheriumDomain::ScrollSepolia),
            11155111u32 => Ok(KnownAetheriumDomain::Sepolia),
            98985u32 => Ok(KnownAetheriumDomain::SuperpositionTestnet),
            978658u32 => Ok(KnownAetheriumDomain::Treasuretopaz),
            _ => Err(AetheriumProtocolError::UnknownDomainId(id)),
        }
    }

    /// The lower-case name of this domain.
    pub fn as_str(self) -> (r: &'static str)
        ensures
            r@ == spec_domain_name(self),
    {
        match self {
            KnownAetheriumDomain::Ancient8 => "ancient8",
            KnownAetheriumDomain::Arbitrum => "arbitrum",
            KnownAetheriumDomain::Avalanche => "avalanche",
            KnownAetheriumDomain::BinanceSmartChain => "bsc",
            KnownAetheriumDomain::Blast => "blast",
            KnownAetheriumDomain::Bob => "bob",
            KnownAetheriumDomain::Celo => "celo",
            KnownAetheriumDomain::Cheesechain => "cheesechain",
            KnownAetheriumDomain::Cyber => "cyber",
            KnownAetheriumDomain::DegenChain => "degenchain",
            KnownAetheriumDomain::EclipseMainnet => "eclipsemainnet",
            KnownAetheriumDomain::Endurance => "endurance",
            KnownAetheriumDomain::Ethereum => "ethereum",
            KnownAetheriumDomain::Fraxtal => "fraxtal",
            KnownAetheriumDomain::Fuji => "fuji",
            KnownAetheriumDomain::FuseMainnet => "fusemainnet",
            KnownAetheriumDomain::Gnosis => "gnosis",
            KnownAetheriumDomain::InEvm => "inevm",
            KnownAetheriumDomain::Injective => "injective",
            KnownAetheriumDomain::Kroma => "kroma",
            KnownAetheriumDomain::Linea => "linea",
            KnownAetheriumDomain::Lisk => "lisk",
            KnownAetheriumDomain::Lukso => "lukso",
            KnownAetheriumDomain::MantaPacific => "mantapacific",
            KnownAetheriumDomain::Mantle => "mantle",
            KnownAetheriumDomain::Merlin => "merlin",
            KnownAetheriumDomain::Metis => "metis",
            KnownAetheriumDomain::Mint => "mint",
            KnownAetheriumDomain::Mode => "mode",
            KnownAetheriumDomain::Moonbeam => "moonbeam",
            KnownAetheriumDomain::Neutron => "neutron",
            KnownAetheriumDomain::Optimism => "optimism",
            KnownAetheriumDomain::Osmosis => "osmosis",
            KnownAetheriumDomain::Polygon => "polygon",
            KnownAetheriumDomain::ProofOfPlay => "proofofplay",
            KnownAetheriumDomain::ReAl => "real",
            KnownAetheriumDomain::Redstone => "redstone",
            KnownAetheriumDomain::Sanko => "sanko",
            KnownAetheriumDomain::Sei => "sei",
            KnownAetheriumDomain::SolanaMainnet => "solanamainnet",
            KnownAetheriumDomain::Taiko => "taiko",
            KnownAetheriumDomain::Tangle => "tangle",
            KnownAetheriumDomain::Treasure => "treasure",
            KnownAetheriumDomain::Viction => "viction",
            KnownAetheriumDomain::Worldchain => "worldchain",
            KnownAetheriumDomain::Xai => "xai",
            KnownAetheriumDomain::Xlayer => "xlayer",
            KnownAetheriumDomain::Zetachain => "zetachain",
            KnownAetheriumDomain::Zeronetwork => "zeronetwork",
            KnownAetheriumDomain::Zklink => "zklink",
            KnownAetheriumDomain::Zksync => "zksync",
            KnownAetheriumDomain::Zircuit => "zircuit",
            KnownAetheriumDomain::ZoraMainnet => "zoramainnet",
            KnownAetheriumDomain::Test1 => "test1",
            KnownAetheriumDomain::Test2 => "test2",
            KnownAetheriumDomain::Test3 => "test3",
            KnownAetheriumDomain::FuelTest1 => "fueltest1",
            KnownAetheriumDomain::SealevelTest1 => "sealeveltest1",
            KnownAetheriumDomain::SealevelTest2 => "sealeveltest2",
            KnownAetheriumDomain::CosmosTest99990 => "cosmostest99990",
            KnownAetheriumDomain::CosmosTest99991 => "cosmostest99991",
            KnownAetheriumDomain::Abstracttestnet => "abstracttestnet",
            KnownAetheriumDomain::Alfajores => "alfajores",
            KnownAetheriumDomain::BinanceSmartChainTestnet => "bsctestnet",
            KnownAetheriumDomain::Chiado => "chiado",
            KnownAetheriumDomain::ConnextSepolia => "connextsepolia",
            KnownAetheriumDomain::Holesky => "holesky",
            KnownAetheriumDomain::MoonbaseAlpha => "moonbasealpha",
            KnownAetheriumDomain::PlumeTestnet => "plumetestnet",
            KnownAetheriumDomain::ScrollSepolia => "scrollsepolia",
            KnownAetheriumDomain::Sepolia => "sepolia",
            KnownAetheriumDomain::SuperpositionTestnet => "superpositiontestnet",
            KnownAetheriumDomain::Treasuretopaz => "treasuretopaz",
        }
    }

    /// The network type of this domain.
    pub fn domain_type(self) -> (r: AetheriumDomainType)
        ensures
            r == spec_domain_type(self),
    {
        match self {
            KnownAetheriumDomain::Ancient8 | KnownAetheriumDomain::Arbitrum
                | KnownAetheriumDomain::Avalanche | KnownAetheriumDomain::BinanceSmartChain
                | KnownAetheriumDomain::Blast | KnownAetheriumDomain::Bob
                | KnownAetheriumDomain::Celo | KnownAetheriumDomain::Cheesechain
                | KnownAetheriumDomain::Cyber | KnownAetheriumDomain::DegenChain
                | KnownAetheriumDomain::EclipseMainnet | KnownAetheriumDomain::Endurance
                | KnownAetheriumDomain::Ethereum | KnownAetheriumDomain::Fraxtal
                | KnownAetheriumDomain::FuseMainnet | KnownAetheriumDomain::Gnosis
                | KnownAetheriumDomain::InEvm | KnownAetheriumDomain::Injective
                | KnownAetheriumDomain::Kroma | KnownAetheriumDomain::Linea
                | KnownAetheriumDomain::Lisk | KnownAetheriumDomain::Lukso
                | KnownAetheriumDomain::MantaPacific | KnownAetheriumDomain::Mantle
                | KnownAetheriumDomain::Merlin | KnownAetheriumDomain::Metis
                | KnownAetheriumDomain::Mint | KnownAetheriumDomain::Mode
                | KnownAetheriumDomain::Moonbeam | KnownAetheriumDomain::Neutron
                | KnownAetheriumDomain::Optimism | KnownAetheriumDomain::Osmosis
                | KnownAetheriumDomain::Polygon | KnownAetheriumDomain::ProofOfPlay
                | KnownAetheriumDomain::ReAl | KnownAetheriumDomain::Redstone
                | KnownAetheriumDomain::Sanko | KnownAetheriumDomain::Sei
                | KnownAetheriumDomain::SolanaMainnet | KnownAetheriumDomain::Taiko
                | KnownAetheriumDomain::Tangle | KnownAetheriumDomain::Treasure
                | KnownAetheriumDomain::Viction | KnownAetheriumDomain::Worldchain
                | KnownAetheriumDomain::Xai | KnownAetheriumDomain::Xlayer
                | KnownAetheriumDomain::Zeronetwork | KnownAetheriumDomain::Zetachain
                | KnownAetheriumDomain::Zircuit | KnownAetheriumDomain::Zklink
                | KnownAetheriumDomain::Zksync | KnownAetheriumDomain::ZoraMainnet =>
                AetheriumDomainType::Mainnet,
            KnownAetheriumDomain::Alfajores | KnownAetheriumDomain::BinanceSmartChainTestnet
                | KnownAetheriumDomain::Chiado | KnownAetheriumDomain::ConnextSepolia
                | KnownAetheriumDomain::Fuji | KnownAetheriumDomain::Holesky
                | KnownAetheriumDomain::MoonbaseAlpha | KnownAetheriumDomain::PlumeTestnet
                | KnownAetheriumDomain::ScrollSepolia | KnownAetheriumDomain::Sepolia
                | KnownAetheriumDomain::SuperpositionTestnet
                | KnownAetheriumDomain::Abstracttestnet | KnownAetheriumDomain::Treasuretopaz =>
                AetheriumDomainType::Testnet,
            KnownAetheriumDomain::Test1 | KnownAetheriumDomain::Test2
                | KnownAetheriumDomain::Test3 | KnownAetheriumDomain::FuelTest1
                | KnownAetheriumDomain::SealevelTest1 | KnownAetheriumDomain::SealevelTest2
                | KnownAetheriumDomain::CosmosTest99990 | KnownAetheriumDomain::CosmosTest99991 =>
                AetheriumDomainType::LocalTestChain,
        }
    }

    /// The protocol family of this domain.
    pub fn domain_protocol(self) -> (r: AetheriumDomainProtocol)
        ensures
            r == spec_domain_protocol(self),
    {
        match self {
            KnownAetheriumDomain::FuelTest1 => AetheriumDomainProtocol::Fuel,
            KnownAetheriumDomain::EclipseMainnet | KnownAetheriumDomain::SolanaMainnet
                | KnownAetheriumDomain::SealevelTest1 | KnownAetheriumDomain::SealevelTest2 =>
                AetheriumDomainProtocol::Sealevel,
            KnownAetheriumDomain::Injective | KnownAetheriumDomain::Neutron
                | KnownAetheriumDomain::Osmosis | KnownAetheriumDomain::CosmosTest99990
                | KnownAetheriumDomain::CosmosTest99991 => AetheriumDomainProtocol::Cosmos,
            _ => AetheriumDomainProtocol::Ethereum,
        }
    }

    /// The technical stack of this domain.
    pub fn domain_technical_stack(self) -> (r: AetheriumDomainTechnicalStack)
        ensures
            r == spec_domain_technical_stack(self),
    {
        match self {
            KnownAetheriumDomain::Arbitrum | KnownAetheriumDomain::Cheesechain
                | KnownAetheriumDomain::DegenChain | KnownAetheriumDomain::InEvm
                | KnownAetheriumDomain::ProofOfPlay | KnownAetheriumDomain::ReAl
                | KnownAetheriumDomain::Sanko | KnownAetheriumDomain::Xai
                | KnownAetheriumDomain::ConnextSepolia | KnownAetheriumDomain::PlumeTestnet
                | KnownAetheriumDomain::SuperpositionTestnet =>
                AetheriumDomainTechnicalStack::ArbitrumNitro,
            KnownAetheriumDomain::Ancient8 | KnownAetheriumDomain::Blast
                | KnownAetheriumDomain::Bob | KnownAetheriumDomain::Cyber
                | KnownAetheriumDomain::Fraxtal | KnownAetheriumDomain::Kroma
                | KnownAetheriumDomain::Lisk | KnownAetheriumDomain::MantaPacific
                | KnownAetheriumDomain::Mantle | KnownAetheriumDomain::Metis
                | KnownAetheriumDomain::Mint | KnownAetheriumDomain::Mode
                | KnownAetheriumDomain::Optimism | KnownAetheriumDomain::Redstone
                | KnownAetheriumDomain::Worldchain | KnownAetheriumDomain::Zircuit
                | KnownAetheriumDomain::ZoraMainnet => AetheriumDomainTechnicalStack::OpStack,
            KnownAetheriumDomain::Merlin | KnownAetheriumDomain::Xlayer =>
                AetheriumDomainTechnicalStack::PolygonCDK,
            KnownAetheriumDomain::Moonbeam | KnownAetheriumDomain::Tangle =>
                AetheriumDomainTechnicalStack::PolkadotSubstrate,
            KnownAetheriumDomain::Abstracttestnet | KnownAetheriumDomain::Treasure
                | KnownAetheriumDomain::Treasuretopaz | KnownAetheriumDomain::Zeronetwork
                | KnownAetheriumDomain::Zklink | KnownAetheriumDomain::Zksync =>
                AetheriumDomainTechnicalStack::ZkSync,
            _ => AetheriumDomainTechnicalStack::Other,
        }
    }
}

impl From<KnownAetheriumDomain> for u32 {
    fn from(domain: KnownAetheriumDomain) -> u32 {
        domain.id()
    }
}

impl vstd::std_specs::convert::FromSpecImpl<KnownAetheriumDomain> for u32 {
    open spec fn obeys_from_spec() -> bool {
        true
    }

    open spec fn from_spec(domain: KnownAetheriumDomain) -> u32 {
        spec_domain_id(domain)
    }
}

impl TryFrom<u32> for KnownAetheriumDomain {
    type Error = AetheriumProtocolError;

    fn try_from(domain_id: u32) -> Result<KnownAetheriumDomain, AetheriumProtocolError> {
        KnownAetheriumDomain::from_id(domain_id)
    }
}

impl vstd::std_specs::convert::TryFromSpecImpl<u32> for KnownAetheriumDomain {
    open spec fn obeys_try_from_spec() -> bool {
        false
    }

    open spec fn try_from_spec(domain_id: u32) -> Result<
        KnownAetheriumDomain,
        AetheriumProtocolError,
    > {
        arbitrary()
    }
}

/// The known domain whose name matches, up to ASCII case; names are tried in
/// declaration order.
pub open spec fn spec_domain_from_name(s: Seq<char>) -> Option<KnownAetheriumDomain> {
    if spec_eq_ignore_ascii_case(s, "ancient8"@) {
        Some(KnownAetheriumDomain::Ancient8)
    } else if spec_eq_ignore_ascii_case(s, "arbitrum"@) {
        Some(KnownAetheriumDomain::Arbitrum)
    } else if spec_eq_ignore_ascii_case(s, "avalanche"@) {
        Some(KnownAetheriumDomain::Avalanche)
    } else if spec_eq_ignore_ascii_case(s, "bsc"@) {
        Some(KnownAetheriumDomain::BinanceSmartChain)
    } else if spec_eq_ignore_ascii_case(s, "blast"@) {
        Some(KnownAetheriumDomain::Blast)
    } else if spec_eq_ignore_ascii_case(s, "bob"@) {
        Some(KnownAetheriumDomain::Bob)
    } else if spec_eq_ignore_ascii_case(s, "celo"@) {
        Some(KnownAetheriumDomain::Celo)
    } else if spec_eq_ignore_ascii_case(s, "cheesechain"@) {
        Some(KnownAetheriumDomain::Cheesechain)
    } else if spec_eq_ignore_ascii_case(s, "cyber"@) {
        Some(KnownAetheriumDomain::Cyber)
    } else if spec_eq_ignore_ascii_case(s, "degenchain"@) {
        Some(KnownAetheriumDomain::DegenChain)
    } else if spec_eq_ignore_ascii_case(s, "eclipsemainnet"@) {
        Some(KnownAetheriumDomain::EclipseMainnet)
    } else if spec_eq_ignore_ascii_case(s, "endurance"@) {
        Some(KnownAetheriumDomain::Endurance)
    } else if spec_eq_ignore_ascii_case(s, "ethereum"@) {
        Some(KnownAetheriumDomain::Ethereum)
    } else if spec_eq_ignore_ascii_case(s, "fraxtal"@) {
        Some(KnownAetheriumDomain::Fraxtal)
    } else if spec_eq_ignore_ascii_case(s, "fuji"@) {
        Some(KnownAetheriumDomain::Fuji)
    } else if spec_eq_ignore_ascii_case(s, "fusemainnet"@) {
        Some(KnownAetheriumDomain::FuseMainnet)
    } else if spec_eq_ignore_ascii_case(s, "gnosis"@) {
        Some(KnownAetheriumDomain::Gnosis)
    } else if spec_eq_ignore_ascii_case(s, "inevm"@) {
        Some(KnownAetheriumDomain::InEvm)
    } else if spec_eq_ignore_ascii_case(s, "injective"@) {
        Some(KnownAetheriumDomain::Injective)
    } else if spec_eq_ignore_ascii_case(s, "kroma"@) {
        Some(KnownAetheriumDomain::Kroma)
    } else if spec_eq_ignore_ascii_case(s, "linea"@) {
        Some(KnownAetheriumDomain::Linea)
    } else if spec_eq_ignore_ascii_case(s, "lisk"@) {
        Some(KnownAetheriumDomain::Lisk)
    } else if spec_eq_ignore_ascii_case(s, "lukso"@) {
        Some(KnownAetheriumDomain::Lukso)
    } else if spec_eq_ignore_ascii_case(s, "mantapacific"@) {
        Some(KnownAetheriumDomain::MantaPacific)
    } else if spec_eq_ignore_ascii_case(s, "mantle"@) {
        Some(KnownAetheriumDomain::Mantle)
    } else if spec_eq_ignore_ascii_case(s, "merlin"@) {
        Some(KnownAetheriumDomain::Merlin)
    } else if spec_eq_ignore_ascii_case(s, "metis"@) {
        Some(KnownAetheriumDomain::Metis)
    } else if spec_eq_ignore_ascii_case(s, "mint"@) {
        Some(KnownAetheriumDomain::Mint)
    } else if spec_eq_ignore_ascii_case(s, "mode"@) {
        Some(KnownAetheriumDomain::Mode)
    } else if spec_eq_ignore_ascii_case(s, "moonbeam"@) {
        Some(KnownAetheriumDomain::Moonbeam)
    } else if spec_eq_ignore_ascii_case(s, "neutron"@) {
        Some(KnownAetheriumDomain::Neutron)
    } else if spec_eq_ignore_ascii_case(s, "optimism"@) {
        Some(KnownAetheriumDomain::Optimism)
    } else if spec_eq_ignore_ascii_case(s, "osmosis"@) {
        Some(KnownAetheriumDomain::Osmosis)
    } else if spec_eq_ignore_ascii_case(s, "polygon"@) {
        Some(KnownAetheriumDomain::Polygon)
    } else if spec_eq_ignore_ascii_case(s, "proofofplay"@) {
        Some(KnownAetheriumDomain::ProofOfPlay)
    } else if spec_eq_ignore_ascii_case(s, "real"@) {
        Some(KnownAetheriumDomain::ReAl)
    } else if spec_eq_ignore_ascii_case(s, "redstone"@) {
        Some(KnownAetheriumDomain::Redstone)
    } else if spec_eq_ignore_ascii_case(s, "sanko"@) {
        Some(KnownAetheriumDomain::Sanko)
    } else if spec_eq_ignore_ascii_case(s, "sei"@) {
        Some(KnownAetheriumDomain::Sei)
    } else if spec_eq_ignore_ascii_case(s, "solanamainnet"@) {
        Some(KnownAetheriumDomain::SolanaMainnet)
    } else if spec_eq_ignore_ascii_case(s, "taiko"@) {
        Some(KnownAetheriumDomain::Taiko)
    } else if spec_eq_ignore_ascii_case(s, "tangle"@) {
        Some(KnownAetheriumDomain::Tangle)
    } else if spec_eq_ignore_ascii_case(s, "treasure"@) {
        Some(KnownAetheriumDomain::Treasure)
    } else if spec_eq_ignore_ascii_case(s, "viction"@) {
        Some(KnownAetheriumDomain::Viction)
    } else if spec_eq_ignore_ascii_case(s, "worldchain"@) {
        Some(KnownAetheriumDomain::Worldchain)
    } else if spec_eq_ignore_ascii_case(s, "xai"@) {
        Some(KnownAetheriumDomain::Xai)
    } else if spec_eq_ignore_ascii_case(s, "xlayer"@) {
        Some(KnownAetheriumDomain::Xlayer)
    } else if spec_eq_ignore_ascii_case(s, "zetachain"@) {
        Some(KnownAetheriumDomain::Zetachain)
    } else if spec_eq_ignore_ascii_case(s, "zeronetwork"@) {
        Some(KnownAetheriumDomain::Zeronetwork)
    } else if spec_eq_ignore_ascii_case(s, "zklink"@) {
        Some(KnownAetheriumDomain::Zklink)
    } else if spec_eq_ignore_ascii_case(s, "zksync"@) {
        Some(KnownAetheriumDomain::Zksync)
    } else if spec_eq_ignore_ascii_case(s, "zircuit"@) {
        Some(KnownAetheriumDomain::Zircuit)
    } else if spec_eq_ignore_ascii_case(s, "zoramainnet"@) {
        Some(KnownAetheriumDomain::ZoraMainnet)
    } else if spec_eq_ignore_ascii_case(s, "test1"@) {
        Some(KnownAetheriumDomain::Test1)
    } else if spec_eq_ignore_ascii_case(s, "test2"@) {
        Some(KnownAetheriumDomain::Test2)
    } else if spec_eq_ignore_ascii_case(s, "test3"@) {
        Some(KnownAetheriumDomain::Test3)
    } else if spec_eq_ignore_ascii_case(s, "fueltest1"@) {
        Some(KnownAetheriumDomain::FuelTest1)
    } else if spec_eq_ignore_ascii_case(s, "sealeveltest1"@) {
        Some(KnownAetheriumDomain::SealevelTest1)
    } else if spec_eq_ignore_ascii_case(s, "sealeveltest2"@) {
        Some(KnownAetheriumDomain::SealevelTest2)
    } else if spec_eq_ignore_ascii_case(s, "cosmostest99990"@) {
        Some(KnownAetheriumDomain::CosmosTest99990)
    } else if spec_eq_ignore_ascii_case(s, "cosmostest99991"@) {
        Some(KnownAetheriumDomain::CosmosTest99991)
    } else if spec_eq_ignore_ascii_case(s, "abstracttestnet"@) {
        Some(KnownAetheriumDomain::Abstracttestnet)
    } else if spec_eq_ignore_ascii_case(s, "alfajores"@) {
        Some(KnownAetheriumDomain::Alfajores)
    } else if spec_eq_ignore_ascii_case(s, "bsctestnet"@) {
        Some(KnownAetheriumDomain::BinanceSmartChainTestnet)
    } else if spec_eq_ignore_ascii_case(s, "chiado"@) {
        Some(KnownAetheriumDomain::Chiado)
    } else if spec_eq_ignore_ascii_case(s, "connextsepolia"@) {
        Some(KnownAetheriumDomain::ConnextSepolia)
    } else if spec_eq_ignore_ascii_case(s, "holesky"@) {
        Some(KnownAetheriumDomain::Holesky)
    } else if spec_eq_ignore_ascii_case(s, "moonbasealpha"@) {
        Some(KnownAetheriumDomain::MoonbaseAlpha)
    } else if spec_eq_ignore_ascii_case(s, "plumetestnet"@) {
        Some(KnownAetheriumDomain::PlumeTestnet)
    } else if spec_eq_ignore_ascii_case(s, "scrollsepolia"@) {
        Some(KnownAetheriumDomain::ScrollSepolia)
    } else if spec_eq_ignore_ascii_case(s, "sepolia"@) {
        Some(KnownAetheriumDomain::Sepolia)
    } else if spec_eq_ignore_ascii_case(s, "superpositiontestnet"@) {
        Some(KnownAetheriumDomain::SuperpositionTestnet)
    } else if spec_eq_ignore_ascii_case(s, "treasuretopaz"@) {
        Some(KnownAetheriumDomain::Treasuretopaz)
    } else {
        None
    }
}

impl KnownAetheriumDomain {
    /// The known domain with the given name, compared without regard to ASCII
    /// case.
    pub fn from_name(s: &str) -> (r: Option<KnownAetheriumDomain>)
        ensures
            r == spec_domain_from_name(s@),
    {
        if eq_ignore_ascii_case(s, "ancient8") {
            Some(KnownAetheriumDomain::Ancient8)
        } else if eq_ignore_ascii_case(s, "arbitrum") {
            Some(KnownAetheriumDomain::Arbitrum)
        } else if eq_ignore_ascii_case(s, "avalanche") {
            Some(KnownAetheriumDomain::Avalanche)
        } else if eq_ignore_ascii_case(s, "bsc") {
            Some(KnownAetheriumDomain::BinanceSmartChain)
        } else if eq_ignore_ascii_case(s, "blast") {
            Some(KnownAetheriumDomain::Blast)
        } else if eq_ignore_ascii_case(s, "bob") {
            Some(KnownAetheriumDomain::Bob)
        } else if eq_ignore_ascii_case(s, "celo") {
            Some(KnownAetheriumDomain::Celo)
        } else if eq_ignore_ascii_case(s, "cheesechain") {
            Some(KnownAetheriumDomain::Cheesechain)
        } else if eq_ignore_ascii_case(s, "cyber") {
            Some(KnownAetheriumDomain::Cyber)
        } else if eq_ignore_ascii_case(s, "degenchain") {
            Some(KnownAetheriumDomain::DegenChain)
        } else if eq_ignore_ascii_case(s, "eclipsemainnet") {
            Some(KnownAetheriumDomain::EclipseMainnet)
        } else if eq_ignore_ascii_case(s, "endurance") {
            Some(KnownAetheriumDomain::Endurance)
        } else if eq_ignore_ascii_case(s, "ethereum") {
            Some(KnownAetheriumDomain::Ethereum)
        } else if eq_ignore_ascii_case(s, "fraxtal") {
            Some(KnownAetheriumDomain::Fraxtal)
        } else if eq_ignore_ascii_case(s, "fuji") {
            Some(KnownAetheriumDomain::Fuji)
        } else if eq_ignore_ascii_case(s, "fusemainnet") {
            Some(KnownAetheriumDomain::FuseMainnet)
        } else if eq_ignore_ascii_case(s, "gnosis") {
            Some(KnownAetheriumDomain::Gnosis)
        } else if eq_ignore_ascii_case(s, "inevm") {
            Some(KnownAetheriumDomain::InEvm)
        } else if eq_ignore_ascii_case(s, "injective") {
            Some(KnownAetheriumDomain::Injective)
        } else if eq_ignore_ascii_case(s, "kroma") {
            Some(KnownAetheriumDomain::Kroma)
        } else if eq_ignore_ascii_case(s, "linea") {
            Some(KnownAetheriumDomain::Linea)
        } else if eq_ignore_ascii_case(s, "lisk") {
            Some(KnownAetheriumDomain::Lisk)
        } else if eq_ignore_ascii_case(s, "lukso") {
            Some(KnownAetheriumDomain::Lukso)
        } else if eq_ignore_ascii_case(s, "mantapacific") {
            Some(KnownAetheriumDomain::MantaPacific)
        } else if eq_ignore_ascii_case(s, "mantle") {
            Some(KnownAetheriumDomain::Mantle)
        } else if eq_ignore_ascii_case(s, "merlin") {
            Some(KnownAetheriumDomain::Merlin)
        } else if eq_ignore_ascii_case(s, "metis") {
            Some(KnownAetheriumDomain::Metis)
        } else if eq_ignore_ascii_case(s, "mint") {
            Some(KnownAetheriumDomain::Mint)
        } else if eq_ignore_ascii_case(s, "mode") {
            Some(KnownAetheriumDomain::Mode)
        } else if eq_ignore_ascii_case(s, "moonbeam") {
            Some(KnownAetheriumDomain::Moonbeam)
        } else if eq_ignore_ascii_case(s, "neutron") {
            Some(KnownAetheriumDomain::Neutron)
        } else if eq_ignore_ascii_case(s, "optimism") {
            Some(KnownAetheriumDomain::Optimism)
        } else if eq_ignore_ascii_case(s, "osmosis") {
            Some(KnownAetheriumDomain::Osmosis)
        } else if eq_ignore_ascii_case(s, "polygon") {
            Some(KnownAetheriumDomain::Polygon)
        } else if eq_ignore_ascii_case(s, "proofofplay") {
            Some(KnownAetheriumDomain::ProofOfPlay)
        } else if eq_ignore_ascii_case(s, "real") {
            Some(KnownAetheriumDomain::ReAl)
        } else if eq_ignore_ascii_case(s, "redstone") {
            Some(KnownAetheriumDomain::Redstone)
        } else if eq_ignore_ascii_case(s, "sanko") {
            Some(KnownAetheriumDomain::Sanko)
        } else if eq_ignore_ascii_case(s, "sei") {
            Some(KnownAetheriumDomain::Sei)
        } else if eq_ignore_ascii_case(s, "solanamainnet") {
            Some(KnownAetheriumDomain::SolanaMainnet)
        } else if eq_ignore_ascii_case(s, "taiko") {
            Some(KnownAetheriumDomain::Taiko)
        } else if eq_ignore_ascii_case(s, "tangle") {
            Some(KnownAetheriumDomain::Tangle)
        } else if eq_ignore_ascii_case(s, "treasure") {
            Some(KnownAetheriumDomain::Treasure)
        } else if eq_ignore_ascii_case(s, "viction") {
            Some(KnownAetheriumDomain::Viction)
        } else if eq_ignore_ascii_case(s, "worldchain") {
            Some(KnownAetheriumDomain::Worldchain)
        } else if eq_ignore_ascii_case(s, "xai") {
            Some(KnownAetheriumDomain::Xai)
        } else if eq_ignore_ascii_case(s, "xlayer") {
            Some(KnownAetheriumDomain::Xlayer)
        } else if eq_ignore_ascii_case(s, "zetachain") {
            Some(KnownAetheriumDomain::Zetachain)
        } else if eq_ignore_ascii_case(s, "zeronetwork") {
            Some(KnownAetheriumDomain::Zeronetwork)
        } else if eq_ignore_ascii_case(s, "zklink") {
            Some(KnownAetheriumDomain::Zklink)
        } else if eq_ignore_ascii_case(s, "zksync") {
            Some(KnownAetheriumDomain::Zksync)
        } else if eq_ignore_ascii_case(s, "zircuit") {
            Some(KnownAetheriumDomain::Zircuit)
        } else if eq_ignore_ascii_case(s, "zoramainnet") {
            Some(KnownAetheriumDomain::ZoraMainnet)
        } else if eq_ignore_ascii_case(s, "test1") {
            Some(KnownAetheriumDomain::Test1)
        } else if eq_ignore_ascii_case(s, "test2") {
            Some(KnownAetheriumDomain::Test2)
        } else if eq_ignore_ascii_case(s, "test3") {
            Some(KnownAetheriumDomain::Test3)
        } else if eq_ignore_ascii_case(s, "fueltest1") {
            Some(KnownAetheriumDomain::FuelTest1)
        } else if eq_ignore_ascii_case(s, "sealeveltest1") {
            Some(KnownAetheriumDomain::SealevelTest1)
        } else if eq_ignore_ascii_case(s, "sealeveltest2") {
            Some(KnownAetheriumDomain::SealevelTest2)
        } else if eq_ignore_ascii_case(s, "cosmostest99990") {
            Some(KnownAetheriumDomain::CosmosTest99990)
        } else if eq_ignore_ascii_case(s, "cosmostest99991") {
            Some(KnownAetheriumDomain::CosmosTest99991)
        } else if eq_ignore_ascii_case(s, "abstracttestnet") {
            Some(KnownAetheriumDomain::Abstracttestnet)
        } else if eq_ignore_ascii_case(s, "alfajores") {
            Some(KnownAetheriumDomain::Alfajores)
        } else if eq_ignore_ascii_case(s, "bsctestnet") {
            Some(KnownAetheriumDomain::BinanceSmartChainTestnet)
        } else if eq_ignore_ascii_case(s, "chiado") {
            Some(KnownAetheriumDomain::Chiado)
        } else if eq_ignore_ascii_case(s, "connextsepolia") {
            Some(KnownAetheriumDomain::ConnextSepolia)
        } else if eq_ignore_ascii_case(s, "holesky") {
            Some(KnownAetheriumDomain::Holesky)
        } else if eq_ignore_ascii_case(s, "moonbasealpha") {
            Some(KnownAetheriumDomain::MoonbaseAlpha)
        } else if eq_ignore_ascii_case(s, "plumetestnet") {
            Some(KnownAetheriumDomain::PlumeTestnet)
        } else if eq_ignore_ascii_case(s, "scrollsepolia") {
            Some(KnownAetheriumDomain::ScrollSepolia)
        } else if eq_ignore_ascii_case(s, "sepolia") {
            Some(KnownAetheriumDomain::Sepolia)
        } else if eq_ignore_ascii_case(s, "superpositiontestnet") {
            Some(KnownAetheriumDomain::SuperpositionTestnet)
        } else if eq_ignore_ascii_case(s, "treasuretopaz") {
            Some(KnownAetheriumDomain::Treasuretopaz)
        } else {
            None
        }
    }
}

/// Why a configured (id, name) pair was rejected.
#[derive(Debug, Clone, PartialEq, Eq)]
pub enum AetheriumDomainConfigError {
    /// The domain name does not match the name of the known domain id; the
    /// name is probably misspelled.
    UnknownDomainName(String),
    /// The domain name implies a different domain than the domain id
    /// provided; the domain id is probably wrong.
    DomainNameMismatch(String, u32),
}

impl core::str::FromStr for KnownAetheriumDomain {
    type Err = AetheriumDomainConfigError;

    fn from_str(s: &str) -> Result<KnownAetheriumDomain, AetheriumDomainConfigError> {
        match KnownAetheriumDomain::from_name(s) {
            Some(d) => Ok(d),
            None => Err(AetheriumDomainConfigError::UnknownDomainName(s.to_owned())),
        }
    }
}

/// A domain this crate talks to: either a known chain or one described fully
/// by its configuration.
#[derive(Debug, Clone)]
pub enum AetheriumDomain {
    Known(KnownAetheriumDomain),
    Unknown {
        domain_id: u32,
        domain_name: String,
        domain_type: AetheriumDomainType,
        domain_protocol: AetheriumDomainProtocol,
        domain_technical_stack: AetheriumDomainTechnicalStack,
    },
}

impl AetheriumDomain {
    /// The domain id.
    pub open spec fn spec_id(&self) -> u32 {
        match self {
            AetheriumDomain::Known(domain) => spec_domain_id(*domain),
            AetheriumDomain::Unknown { domain_id, .. } => *domain_id,
        }
    }

    /// The domain name, lower-case for known domains.
    pub open spec fn spec_name(&self) -> Seq<char> {
        match self {
            AetheriumDomain::Known(domain) => spec_domain_name(*domain),
            AetheriumDomain::Unknown { domain_name, .. } => domain_name@,
        }
    }

    /// A domain for tests: id zero, local test chain, EVM protocol.
    pub fn new_test_domain(name: &str) -> (r: AetheriumDomain)
        ensures
            r matches AetheriumDomain::Unknown {
                domain_id,
                domain_name,
                domain_type,
                domain_protocol,
                domain_technical_stack,
            } && domain_id == 0 && domain_name@ == name@ && domain_type
                == AetheriumDomainType::LocalTestChain && domain_protocol
                == AetheriumDomainProtocol::Ethereum && domain_technical_stack
                == AetheriumDomainTechnicalStack::Other,
    {
        AetheriumDomain::Unknown {
            domain_id: 0,
            domain_name: name.to_owned(),
            domain_type: AetheriumDomainType::LocalTestChain,
            domain_protocol: AetheriumDomainProtocol::Ethereum,
            domain_technical_stack: AetheriumDomainTechnicalStack::Other,
        }
    }

    /// Accepts a configured (id, name) pair: a known id must come with its
    /// own name; a known name must not come with a foreign id; anything else
    /// is taken as a user-provided domain.
    pub fn from_config(
        domain_id: u32,
        name: &str,
        protocol: AetheriumDomainProtocol,
        domain_technical_stack: AetheriumDomainTechnicalStack,
    ) -> (r: Result<AetheriumDomain, AetheriumDomainConfigError>)
        ensures
            match r {
                Ok(d) => match d {
                    AetheriumDomain::Known(k) => spec_domain_from_id(domain_id) == Some(k)
                        && spec_eq_ignore_ascii_case(name@, spec_domain_name(k)),
                    AetheriumDomain::Unknown {
                        domain_id: di,
                        domain_name,
                        domain_type,
                        domain_protocol,
                        domain_technical_stack: ts,
                    } => spec_domain_from_id(domain_id) is None && spec_domain_from_name(name@)
                        is None && di == domain_id && domain_name@ == spec_lower(name@)
                        && domain_type == AetheriumDomainType::Unknown && domain_protocol
                        == protocol && ts == domain_technical_stack,
                },
                Err(e) => match e {
                    AetheriumDomainConfigError::UnknownDomainName(n) => (
                    spec_domain_from_id(domain_id) matches Some(k)
                        && !spec_eq_ignore_ascii_case(name@, spec_domain_name(k))) && n@
                        == spec_lower(name@),
                    AetheriumDomainConfigError::DomainNameMismatch(n, di) => spec_domain_from_id(
                        domain_id,
                    ) is None && spec_domain_from_name(name@) is Some && n@ == spec_lower(name@)
                        && di == domain_id,
                },
            },
    {
        let lowered = ascii_lowercase(name);
        match KnownAetheriumDomain::from_id(domain_id) {
            Ok(domain) => {
                if eq_ignore_ascii_case(name, domain.as_str()) {
                    Ok(AetheriumDomain::Known(domain))
                } else {
                    Err(AetheriumDomainConfigError::UnknownDomainName(lowered))
                }
            },
            Err(_) => {
                if KnownAetheriumDomain::from_name(name).is_some() {
                    Err(AetheriumDomainConfigError::DomainNameMismatch(lowered, domain_id))
                } else {
                    Ok(
                        AetheriumDomain::Unknown {
                            domain_id,
                            domain_name: lowered,
                            domain_type: AetheriumDomainType::Unknown,
                            domain_protocol: protocol,
                            domain_technical_stack,
                        },
                    )
                }
            },
        }
    }

    /// The chain name.
    pub fn name(&self) -> (r: &str)
        ensures
            r@ == self.spec_name(),
    {
        match self {
            AetheriumDomain::Known(domain) => domain.as_str(),
            AetheriumDomain::Unknown { domain_name, .. } => domain_name.as_str(),
        }
    }

    /// The domain id.
    pub fn id(&self) -> (r: u32)
        ensures
            r == self.spec_id(),
    {
        match self {
            AetheriumDomain::Known(domain) => domain.id(),
            AetheriumDomain::Unknown { domain_id, .. } => *domain_id,
        }
    }

    /// The network type of this domain.
    pub fn domain_type(&self) -> (r: AetheriumDomainType)
        ensures
            match self {
                AetheriumDomain::Known(k) => r == spec_domain_type(*k),
                AetheriumDomain::Unknown { domain_type, .. } => r == domain_type,
            },
    {
        match self {
            AetheriumDomain::Known(domain) => domain.domain_type(),
            AetheriumDomain::Unknown { domain_type, .. } => *domain_type,
        }
    }

    /// The protocol family answering for this domain.
    pub fn domain_protocol(&self) -> (r: AetheriumDomainProtocol)
        ensures
            match self {
                AetheriumDomain::Known(k) => r == spec_domain_protocol(*k),
                AetheriumDomain::Unknown { domain_protocol, .. } => r == domain_protocol,
            },
    {
        match self {
            AetheriumDomain::Known(domain) => domain.domain_protocol(),
            AetheriumDomain::Unknown { domain_protocol, .. } => *domain_protocol,
        }
    }

    /// The technical stack of this domain.
    pub fn domain_technical_stack(&self) -> (r: AetheriumDomainTechnicalStack)
        ensures
            match self {
                AetheriumDomain::Known(k) => r == spec_domain_technical_stack(*k),
                AetheriumDomain::Unknown { domain_technical_stack, .. } => r
                    == domain_technical_stack,
            },
    {
        match self {
            AetheriumDomain::Known(domain) => domain.domain_technical_stack(),
            AetheriumDomain::Unknown { domain_technical_stack, .. } => *domain_technical_stack,
        }
    }

    /// True on chains built on Arbitrum Nitro.
    pub fn is_arbitrum_nitro(&self) -> (r: bool)
        ensures
            r == (self.spec_technical_stack() == AetheriumDomainTechnicalStack::ArbitrumNitro),
    {
        matches!(self.domain_technical_stack(), AetheriumDomainTechnicalStack::ArbitrumNitro)
    }

    /// True exactly for the Injective chain.
    pub fn is_injective(&self) -> (r: bool)
        ensures
            r == (self matches AetheriumDomain::Known(k) && k
                == KnownAetheriumDomain::Injective),
    {
        match self {
            AetheriumDomain::Known(k) => matches!(k, KnownAetheriumDomain::Injective),
            AetheriumDomain::Unknown { .. } => false,
        }
    }

    /// True on chains built on a ZkSync stack.
    pub fn is_zksync_stack(&self) -> (r: bool)
        ensures
            r == (self.spec_technical_stack() == AetheriumDomainTechnicalStack::ZkSync),
    {
        matches!(self.domain_technical_stack(), AetheriumDomainTechnicalStack::ZkSync)
    }

    /// The technical stack, at the spec level.
    pub open spec fn spec_technical_stack(&self) -> AetheriumDomainTechnicalStack {
        match self {
            AetheriumDomain::Known(k) => spec_domain_technical_stack(*k),
            AetheriumDomain::Unknown { domain_technical_stack, .. } => *domain_technical_stack,
        }
    }

    /// The protocol family, at the spec level.
    pub open spec fn spec_protocol(&self) -> AetheriumDomainProtocol {
        match self {
            AetheriumDomain::Known(k) => spec_domain_protocol(*k),
            AetheriumDomain::Unknown { domain_protocol, .. } => *domain_protocol,
        }
    }

    /// How this domain's logs are indexed: EVM and Cosmos chains by block,
    /// Sealevel and Fuel chains by sequence.
    pub fn index_mode(&self) -> (r: IndexMode)
        ensures
            r == (match self.spec_protocol() {
                AetheriumDomainProtocol::Ethereum | AetheriumDomainProtocol::Cosmos =>
                    IndexMode::Block,
                AetheriumDomainProtocol::Sealevel | AetheriumDomainProtocol::Fuel =>
                    IndexMode::Sequence,
            }),
    {
        match self.domain_protocol() {
            AetheriumDomainProtocol::Ethereum | AetheriumDomainProtocol::Cosmos =>
                IndexMode::Block,
            AetheriumDomainProtocol::Sealevel | AetheriumDomainProtocol::Fuel =>
                IndexMode::Sequence,
        }
    }
}

impl PartialEq for AetheriumDomain {
    /// Two domains are the same exactly when their ids agree.
    fn eq(&self, other: &AetheriumDomain) -> bool {
        self.id() == other.id()
    }
}

impl Eq for AetheriumDomain {

}

impl vstd::std_specs::cmp::PartialEqSpecImpl for AetheriumDomain {
    open spec fn obeys_eq_spec() -> bool {
        true
    }

    open spec fn eq_spec(&self, other: &AetheriumDomain) -> bool {
        self.spec_id() == other.spec_id()
    }
}

impl From<KnownAetheriumDomain> for AetheriumDomain {
    fn from(domain: KnownAetheriumDomain) -> AetheriumDomain {
        AetheriumDomain::Known(domain)
    }
}

impl vstd::std_specs::convert::FromSpecImpl<KnownAetheriumDomain> for AetheriumDomain {
    open spec fn obeys_from_spec() -> bool {
        true
    }

    open spec fn from_spec(domain: KnownAetheriumDomain) -> AetheriumDomain {
        AetheriumDomain::Known(domain)
    }
}

impl<'a> From<&'a AetheriumDomain> for u32 {
    fn from(domain: &'a AetheriumDomain) -> u32 {
        domain.id()
    }
}

impl<'a> vstd::std_specs::convert::FromSpecImpl<&'a AetheriumDomain> for u32 {
    open spec fn obeys_from_spec() -> bool {
        true
    }

    open spec fn from_spec(domain: &'a AetheriumDomain) -> u32 {
        domain.spec_id()
    }
}

const ETHEREUM_DECIMALS: u8 = 18;

const COSMOS_DECIMALS: u8 = 6;

const SOLANA_DECIMALS: u8 = 9;

/// The decimals each protocol typically uses for the lowest denomination of
/// its native token.
pub fn decimals_by_protocol(protocol: AetheriumDomainProtocol) -> (r: u8)
    ensures
        protocol == AetheriumDomainProtocol::Cosmos ==> r == 6,
        protocol == AetheriumDomainProtocol::Sealevel ==> r == 9,
        protocol == AetheriumDomainProtocol::Ethereum || protocol == AetheriumDomainProtocol::Fuel
            ==> r == 18,
{
    match protocol {
        AetheriumDomainProtocol::Cosmos => COSMOS_DECIMALS,
        AetheriumDomainProtocol::Sealevel => SOLANA_DECIMALS,
        _ => ETHEREUM_DECIMALS,
    }
}

impl AetheriumDomainProtocol {
    /// Renders an address the way the protocol writes addresses: EVM chains
    /// show the 20-byte form, all others the full 32 bytes, `0x`-prefixed.
    pub fn fmt_address(&self, addr: H256) -> (r: String)
        ensures
            *self == AetheriumDomainProtocol::Ethereum ==> r@ == "0x"@ + spec_to_hex(
                addr@.subrange(12, 32),
            ),
            *self != AetheriumDomainProtocol::Ethereum ==> r@ == "0x"@ + spec_to_hex(addr@),
    {
        match self {
            AetheriumDomainProtocol::Ethereum => {
                let tail = vstd::slice::slice_subrange(addr.as_bytes(), 12, 32);
                crate::primitives::encode_hex_prefixed(tail)
            },
            _ => crate::primitives::encode_hex_prefixed(addr.as_bytes()),
        }
    }
}

} // verus!


