//! Planning engine for cross-chain message verification: given a message and
//! the address of the destination chain's root security module, walk the
//! module tree (routing, aggregation, multisig, null, CCIP-read) and produce
//! the metadata proof the destination verifier expects, under a bounded
//! recursion budget.

pub mod application;
pub mod chain;
pub mod error;
pub mod hash;
pub mod identifiers;
pub mod matching;
pub mod message;
pub mod metadata;
pub mod primitives;
pub mod settings;
pub mod test_utils;
pub mod text;
pub mod traits;

pub use application::{ApplicationOperationVerifier, ApplicationOperationVerifierReport};
pub use chain::{
    AetheriumDomain, AetheriumDomainConfigError, AetheriumDomainProtocol,
    AetheriumDomainTechnicalStack, AetheriumDomainType, ContractLocator, IndexMode,
    KnownAetheriumDomain, ReorgPeriod,
};
pub use error::{AetheriumProtocolError, ChainCommunicationError, ChainResult};
pub use identifiers::AetheriumIdentifier;
pub use matching::{Filter, IsmAwareAppContextClassifier, ListElement, MatchingList};
pub use message::{AetheriumMessage, RawAetheriumMessage};
pub use metadata::{
    build_message_metadata, BuildsBaseMetadata, MessageMetadataBuilder, Metadata,
    MetadataBuildError, ModuleType,
};
pub use primitives::{H160, H256, U256};
pub use settings::{parse_checkpoint_syncer, CheckpointSyncerConf, CheckpointSyncerParseError};
pub use traits::{AetheriumChain, AetheriumContract, Sequenced};
