//! In-memory collaborators for exercising the resolver: a table-backed
//! implementation of [`BuildsBaseMetadata`] describing a whole verifier tree,
//! and response-queue mocks for the individual verifier interfaces.

use vstd::prelude::*;

use crate::chain::AetheriumDomain;
use crate::error::{ChainCommunicationError, ChainResult};
use crate::matching::IsmAwareAppContextClassifier;
use crate::message::AetheriumMessage;
use crate::metadata::{BuildsBaseMetadata, ModuleType};
use crate::primitives::{H256, U256};

verus! {

broadcast use vstd::array::group_array_axioms;

/// What one verifier of an in-memory tree is and answers.
#[derive(Debug, Clone)]
pub enum IsmConfig {
    /// Accepts unconditionally.
    Null,
    /// Routes every message to the given child.
    Routing(H256),
    /// Aggregates the children under the given threshold.
    Aggregation(Vec<H256>, u8),
    /// Answers merkle-root multisig queries with the given canned metadata.
    MerkleRootMultisig(Vec<u8>),
    /// Answers message-id multisig queries with the given canned metadata.
    MessageIdMultisig(Vec<u8>),
    /// Answers the off-chain fetch with the given canned metadata.
    CcipRead(Vec<u8>),
    /// Classified but unsupported.
    Unused,
    /// Classified but retired.
    LegacyMultisig,
}

/// The classification an in-memory verifier reports.
pub open spec fn spec_config_module_type(c: IsmConfig) -> ModuleType {
    match c {
        IsmConfig::Null => ModuleType::Null,
        IsmConfig::Routing(_) => ModuleType::Routing,
        IsmConfig::Aggregation(_, _) => ModuleType::Aggregation,
        IsmConfig::MerkleRootMultisig(_) => ModuleType::MerkleRootMultisig,
        IsmConfig::MessageIdMultisig(_) => ModuleType::MessageIdMultisig,
        IsmConfig::CcipRead(_) => ModuleType::CcipRead,
        IsmConfig::Unused => ModuleType::Unused,
        IsmConfig::LegacyMultisig => ModuleType::LegacyMultisig,
    }
}

/// The first table entry for the address, if any.
pub open spec fn spec_find_ism(table: Seq<(H256, IsmConfig)>, address: H256) -> Option<IsmConfig>
    decreases table.len(),
{
    if table.len() == 0 {
        Option::None
    } else if table[0].0 == address {
        Option::Some(table[0].1)
    } else {
        spec_find_ism(table.drop_first(), address)
    }
}

/// Looks the address up in the table, first entry wins.
#[verifier::loop_isolation(false)]
fn find_ism<'a>(table: &'a Vec<(H256, IsmConfig)>, address: H256) -> (r: Option<&'a IsmConfig>)
    ensures
        match r {
            Some(c) => spec_find_ism(table@, address) == Some(*c),
            None => spec_find_ism(table@, address) is None,
        },
{
    let len = table.len();
    proof {
        assert(table@.skip(0) =~= table@);
    }
    let mut i: usize = 0;
    while i < len
        invariant
            i <= len,
            spec_find_ism(table@, address) == spec_find_ism(table@.skip(i as int), address),
        decreases len - i,
    {
        proof {
            assert(table@.skip(i as int)[0] == table@[i as int]);
            assert(table@.skip(i as int).drop_first() =~= table@.skip(i + 1));
        }
        let entry = &table[i];
        if entry.0 == address {
            proof {
                assert(table@[i as int].0.0@ == address.0@);
                assert(table@[i as int].0.0 == address.0);
            }
            return Some(&entry.1);
        }
        proof {
            assert(table@[i as int].0.0@ != address.0@);
            if table@[i as int].0 == address {
                assert(table@[i as int].0.0@ == address.0@);
            }
        }
        i = i + 1;
    }
    proof {
        assert(table@.skip(len as int) =~= Seq::<(H256, IsmConfig)>::empty());
    }
    None
}

/// Copies a list of addresses.
fn copy_addresses(v: &Vec<H256>) -> (r: Vec<H256>)
    ensures
        r@ == v@,
{
    let len = v.len();
    let mut out: Vec<H256> = Vec::new();
    let mut i: usize = 0;
    while i < len
        invariant
            i <= len == v@.len(),
            out@ == v@.take(i as int),
        decreases len - i,
    {
        out.push(v[i]);
        proof {
            assert(v@.take(i + 1) =~= v@.take(i as int).push(v@[i as int]));
        }
        i = i + 1;
    }
    proof {
        assert(v@.take(len as int) =~= v@);
    }
    out
}

/// A whole verifier tree held in memory, answering the resolver's queries
/// from a table keyed by verifier address; addresses missing from the table
/// fail every query.
#[derive(Debug, Clone)]
pub struct MockBaseMetadataBuilder {
    pub isms: Vec<(H256, IsmConfig)>,
    pub classifier: IsmAwareAppContextClassifier,
}

impl MockBaseMetadataBuilder {
    /// An empty tree with the given classifier.
    pub fn new(classifier: IsmAwareAppContextClassifier) -> (r: MockBaseMetadataBuilder)
        ensures
            r.isms@ == Seq::<(H256, IsmConfig)>::empty(),
            r.classifier == classifier,
    {
        MockBaseMetadataBuilder { isms: Vec::new(), classifier }
    }

    /// Registers a verifier under an address; earlier entries win.
    pub fn push_ism(&mut self, address: H256, config: IsmConfig)
        ensures
            final(self).isms@ == old(self).isms@.push((address, config)),
            final(self).classifier == old(self).classifier,
    {
        self.isms.push((address, config));
    }
}

impl BuildsBaseMetadata for MockBaseMetadataBuilder {
    open spec fn spec_module_type(&self, ism: H256) -> Option<ModuleType> {
        match spec_find_ism(self.isms@, ism) {
            Option::Some(c) => Option::Some(spec_config_module_type(c)),
            Option::None => Option::None,
        }
    }

    open spec fn spec_route(&self, ism: H256, message: AetheriumMessage) -> Option<H256> {
        match spec_find_ism(self.isms@, ism) {
            Option::Some(IsmConfig::Routing(child)) => Option::Some(child),
            _ => Option::None,
        }
    }

    open spec fn spec_modules_and_threshold(&self, ism: H256, message: AetheriumMessage) -> Option<
        (Seq<H256>, u8),
    > {
        match spec_find_ism(self.isms@, ism) {
            Option::Some(IsmConfig::Aggregation(children, threshold)) => Option::Some(
                (children@, threshold),
            ),
            _ => Option::None,
        }
    }

    open spec fn spec_multisig_metadata(
        &self,
        ism: H256,
        message: AetheriumMessage,
        kind: ModuleType,
    ) -> Option<Seq<u8>> {
        match spec_find_ism(self.isms@, ism) {
            Option::Some(IsmConfig::MerkleRootMultisig(v)) => if kind
                == ModuleType::MerkleRootMultisig {
                Option::Some(v@)
            } else {
                Option::None
            },
            Option::Some(IsmConfig::MessageIdMultisig(v)) => if kind
                == ModuleType::MessageIdMultisig {
                Option::Some(v@)
            } else {
                Option::None
            },
            _ => Option::None,
        }
    }

    open spec fn spec_ccip_read_metadata(&self, ism: H256, message: AetheriumMessage) -> Option<
        Seq<u8>,
    > {
        match spec_find_ism(self.isms@, ism) {
            Option::Some(IsmConfig::CcipRead(v)) => Option::Some(v@),
            _ => Option::None,
        }
    }

    open spec fn spec_app_matching_lists(&self) -> Seq<(crate::matching::MatchingList, String)> {
        self.classifier.app_matching_lists@
    }

    fn module_type(&self, ism: H256) -> (r: ChainResult<ModuleType>) {
        match find_ism(&self.isms, ism) {
            Some(config) => Ok(
                match config {
                    IsmConfig::Null => ModuleType::Null,
                    IsmConfig::Routing(_) => ModuleType::Routing,
                    IsmConfig::Aggregation(_, _) => ModuleType::Aggregation,
                    IsmConfig::MerkleRootMultisig(_) => ModuleType::MerkleRootMultisig,
                    IsmConfig::MessageIdMultisig(_) => ModuleType::MessageIdMultisig,
                    IsmConfig::CcipRead(_) => ModuleType::CcipRead,
                    IsmConfig::Unused => ModuleType::Unused,
                    IsmConfig::LegacyMultisig => ModuleType::LegacyMultisig,
                },
            ),
            None => Err(ChainCommunicationError::from_other_str("no verifier registered")),
        }
    }

    fn route(&self, ism: H256, message: &AetheriumMessage) -> (r: ChainResult<H256>) {
        match find_ism(&self.isms, ism) {
            Some(config) => match config {
                IsmConfig::Routing(child) => Ok(*child),
                _ => Err(
                    ChainCommunicationError::from_other_str("verifier is not a routing verifier"),
                ),
            },
            None => Err(ChainCommunicationError::from_other_str("no verifier registered")),
        }
    }

    fn modules_and_threshold(&self, ism: H256, message: &AetheriumMessage) -> (r: ChainResult<
        (Vec<H256>, u8),
    >) {
        match find_ism(&self.isms, ism) {
            Some(config) => match config {
                IsmConfig::Aggregation(children, threshold) => Ok(
                    (copy_addresses(children), *threshold),
                ),
                _ => Err(
                    ChainCommunicationError::from_other_str(
                        "verifier is not an aggregation verifier",
                    ),
                ),
            },
            None => Err(ChainCommunicationError::from_other_str("no verifier registered")),
        }
    }

    fn multisig_metadata(&self, ism: H256, message: &AetheriumMessage, kind: ModuleType) -> (r:
        ChainResult<Vec<u8>>) {
        match find_ism(&self.isms, ism) {
            Some(config) => match config {
                IsmConfig::MerkleRootMultisig(v) => {
                    if kind == ModuleType::MerkleRootMultisig {
                        Ok(vstd::slice::slice_to_vec(v.as_slice()))
                    } else {
                        Err(ChainCommunicationError::from_other_str("multisig kind mismatch"))
                    }
                },
                IsmConfig::MessageIdMultisig(v) => {
                    if kind == ModuleType::MessageIdMultisig {
                        Ok(vstd::slice::slice_to_vec(v.as_slice()))
                    } else {
                        Err(ChainCommunicationError::from_other_str("multisig kind mismatch"))
                    }
                },
                _ => Err(
                    ChainCommunicationError::from_other_str("verifier is not a multisig verifier"),
                ),
            },
            None => Err(ChainCommunicationError::from_other_str("no verifier registered")),
        }
    }

    fn ccip_read_metadata(&self, ism: H256, message: &AetheriumMessage) -> (r: ChainResult<
        Vec<u8>,
    >) {
        match find_ism(&self.isms, ism) {
            Some(config) => match config {
                IsmConfig::CcipRead(v) => Ok(vstd::slice::slice_to_vec(v.as_slice())),
                _ => Err(
                    ChainCommunicationError::from_other_str(
                        "verifier is not a CCIP-read verifier",
                    ),
                ),
            },
            None => Err(ChainCommunicationError::from_other_str("no verifier registered")),
        }
    }

    fn app_context_classifier(&self) -> (r: &IsmAwareAppContextClassifier) {
        &self.classifier
    }
}

/// Canned responses of a mocked verifier contract, handed out in order.
#[derive(Debug)]
pub struct MockInterchainSecurityModuleResponses {
    pub module_type: Vec<ChainResult<ModuleType>>,
    pub dry_run_verify: Vec<ChainResult<Option<U256>>>,
    pub domain: Option<AetheriumDomain>,
}

/// A mocked verifier contract that answers from response queues.
#[derive(Debug)]
pub struct MockInterchainSecurityModule {
    pub responses: MockInterchainSecurityModuleResponses,
    pub address: H256,
}

impl MockInterchainSecurityModule {
    /// A mock at the given address with empty queues.
    pub fn new(address: H256) -> (r: MockInterchainSecurityModule)
        ensures
            r.address == address,
            r.responses.module_type@ == Seq::<ChainResult<ModuleType>>::empty(),
            r.responses.dry_run_verify@ == Seq::<ChainResult<Option<U256>>>::empty(),
            r.responses.domain is None,
    {
        MockInterchainSecurityModule {
            responses: MockInterchainSecurityModuleResponses {
                module_type: Vec::new(),
                dry_run_verify: Vec::new(),
                domain: None,
            },
            address,
        }
    }

    /// Hands out the next queued classification answer.
    pub fn module_type(&mut self) -> (r: ChainResult<ModuleType>)
        requires
            old(self).responses.module_type@.len() > 0,
        ensures
            r == old(self).responses.module_type@[0],
            final(self).responses.module_type@ == old(self).responses.module_type@.drop_first(),
            final(self).responses.dry_run_verify == old(self).responses.dry_run_verify,
            final(self).responses.domain == old(self).responses.domain,
            final(self).address == old(self).address,
    {
        let r = self.responses.module_type.remove(0);
        proof {
            assert(self.responses.module_type@ =~= old(
                self,
            ).responses.module_type@.drop_first());
        }
        r
    }

    /// Hands out the next queued dry-run answer.
    pub fn dry_run_verify(
        &mut self,
        message: &AetheriumMessage,
        metadata: &[u8],
    ) -> (r: ChainResult<Option<U256>>)
        requires
            old(self).responses.dry_run_verify@.len() > 0,
        ensures
            r == old(self).responses.dry_run_verify@[0],
            final(self).responses.dry_run_verify@ == old(
                self,
            ).responses.dry_run_verify@.drop_first(),
            final(self).responses.module_type == old(self).responses.module_type,
            final(self).responses.domain == old(self).responses.domain,
            final(self).address == old(self).address,
    {
        let r = self.responses.dry_run_verify.remove(0);
        proof {
            assert(self.responses.dry_run_verify@ =~= old(
                self,
            ).responses.dry_run_verify@.drop_first());
        }
        r
    }
}

/// Canned responses of a mocked routing verifier, handed out in order.
#[derive(Debug)]
pub struct MockRoutingIsmResponses {
    pub route: Vec<ChainResult<H256>>,
    pub domain: Option<AetheriumDomain>,
}

/// A mocked routing verifier that answers from a response queue.
#[derive(Debug)]
pub struct MockRoutingIsm {
    pub responses: MockRoutingIsmResponses,
}

impl Default for MockRoutingIsm {
    fn default() -> (r: MockRoutingIsm)
        ensures
            r.responses.route@ == Seq::<ChainResult<H256>>::empty(),
            r.responses.domain is None,
    {
        MockRoutingIsm { responses: MockRoutingIsmResponses { route: Vec::new(), domain: None } }
    }
}

impl MockRoutingIsm {
    /// Hands out the next queued route answer.
    pub fn route(&mut self, message: &AetheriumMessage) -> (r: ChainResult<H256>)
        requires
            old(self).responses.route@.len() > 0,
        ensures
            r == old(self).responses.route@[0],
            final(self).responses.route@ == old(self).responses.route@.drop_first(),
            final(self).responses.domain == old(self).responses.domain,
    {
        let r = self.responses.route.remove(0);
        proof {
            assert(self.responses.route@ =~= old(self).responses.route@.drop_first());
        }
        r
    }
}

/// Canned responses of a mocked aggregation verifier, handed out in order.
#[derive(Debug)]
pub struct MockAggregationIsmResponses {
    pub modules_and_threshold: Vec<ChainResult<(Vec<H256>, u8)>>,
    pub domain: Option<AetheriumDomain>,
}

/// A mocked aggregation verifier that answers from a response queue.
#[derive(Debug)]
pub struct MockAggregationIsm {
    pub responses: MockAggregationIsmResponses,
}

impl Default for MockAggregationIsm {
    fn default() -> (r: MockAggregationIsm)
        ensures
            r.responses.modules_and_threshold@ == Seq::<ChainResult<(Vec<H256>, u8)>>::empty(),
            r.responses.domain is None,
    {
        MockAggregationIsm {
            responses: MockAggregationIsmResponses {
                modules_and_threshold: Vec::new(),
                domain: None,
            },
        }
    }
}

impl MockAggregationIsm {
    /// Hands out the next queued children-and-threshold answer.
    pub fn modules_and_threshold(&mut self, message: &AetheriumMessage) -> (r: ChainResult<
        (Vec<H256>, u8),
    >)
        requires
            old(self).responses.modules_and_threshold@.len() > 0,
        ensures
            r == old(self).responses.modules_and_threshold@[0],
            final(self).responses.modules_and_threshold@ == old(
                self,
            ).responses.modules_and_threshold@.drop_first(),
            final(self).responses.domain == old(self).responses.domain,
    {
        let r = self.responses.modules_and_threshold.remove(0);
        proof {
            assert(self.responses.modules_and_threshold@ =~= old(
                self,
            ).responses.modules_and_threshold@.drop_first());
        }
        r
    }
}

} // verus!
