//! The recursive metadata resolver.
//!
//! Given a message and the address of the destination chain's root security
//! module, the resolver queries the module's classification, enforces a depth
//! budget and a shared count budget, and dispatches to the strategy for the
//! classification: terminal strategies (null, the multisig kinds, CCIP-read)
//! produce metadata directly; routing delegates to a single child one level
//! deeper; aggregation fans out to all children and succeeds when at least a
//! threshold of them do.
//!
//! Aggregation metadata is assembled as the concatenation of the successful
//! children's metadata in child order; children that failed or were never
//! tried leave nothing behind. A destination contract that expects positional
//! placeholders for failed children needs a different assembly.
//!
//! The whole resolution is mirrored by the spec-level functions
//! [`spec_resolve`] and [`spec_resolve_children`]: the executable resolver
//! returns exactly the modelled result and leaves the shared counter at
//! exactly the modelled value, for every environment that answers the
//! queries.

use vstd::prelude::*;

use crate::error::{ChainCommunicationError, ChainResult};
use crate::matching::{spec_app_context, IsmAwareAppContextClassifier};
use crate::message::AetheriumMessage;
use crate::primitives::H256;

verus! {

/// Upper bound on the depth of the verifier tree walked for one message.
pub const ISM_MAX_DEPTH: u32 = 13;

/// Upper bound on how many verifiers are resolved for one message in total.
pub const ISM_MAX_COUNT: u32 = 100;

/// The classification of a security module contract.
#[derive(Debug, Clone, Copy, PartialEq, Eq, Structural, Hash)]
pub enum ModuleType {
    /// Unspecified or retired classification.
    Unused,
    /// Delegates to one child module chosen per message.
    Routing,
    /// Requires a threshold of child modules to succeed.
    Aggregation,
    /// Retired multisig classification; no strategy exists for it.
    LegacyMultisig,
    /// Validator signatures over a merkle root.
    MerkleRootMultisig,
    /// Validator signatures over the message identifier.
    MessageIdMultisig,
    /// Accepts any message unconditionally.
    Null,
    /// Requires an off-chain data fetch before verification.
    CcipRead,
}

impl ModuleType {
    /// The classification a chain reports as a small integer, if it is one
    /// this crate knows.
    pub fn from_u8(value: u8) -> (r: Option<ModuleType>)
        ensures
            r == (match value {
                0u8 => Some(ModuleType::Unused),
                1u8 => Some(ModuleType::Routing),
                2u8 => Some(ModuleType::Aggregation),
                3u8 => Some(ModuleType::LegacyMultisig),
                4u8 => Some(ModuleType::MerkleRootMultisig),
                5u8 => Some(ModuleType::MessageIdMultisig),
                6u8 => Some(ModuleType::Null),
                7u8 => Some(ModuleType::CcipRead),
                _ => None::<ModuleType>,
            }),
    {
        match value {
            0u8 => Some(ModuleType::Unused),
            1u8 => Some(ModuleType::Routing),
            2u8 => Some(ModuleType::Aggregation),
            3u8 => Some(ModuleType::LegacyMultisig),
            4u8 => Some(ModuleType::MerkleRootMultisig),
            5u8 => Some(ModuleType::MessageIdMultisig),
            6u8 => Some(ModuleType::Null),
            7u8 => Some(ModuleType::CcipRead),
            _ => None,
        }
    }
}

/// The proof payload produced for a message, submitted alongside it to the
/// destination verifier.
#[derive(Debug, Clone, PartialEq, Eq)]
pub struct Metadata(pub Vec<u8>);

impl View for Metadata {
    type V = Seq<u8>;

    open spec fn view(&self) -> Seq<u8> {
        self.0@
    }
}

impl Metadata {
    /// Wraps raw metadata bytes.
    pub fn new(bytes: Vec<u8>) -> (r: Metadata)
        ensures
            r@ == bytes@,
    {
        Metadata(bytes)
    }
}

/// Why a resolution failed.
#[derive(Debug, Clone, PartialEq, Eq)]
pub enum MetadataBuildError {
    /// A collaborator query failed; carries its description.
    FailedToBuild(String),
    /// The depth budget was already spent when the verifier was reached.
    MaxIsmDepthExceeded(u32),
    /// The count budget was already spent when the verifier was reached.
    MaxIsmCountReached(u32),
    /// The classification is recognized but no strategy exists for it.
    UnsupportedModuleType(ModuleType),
    /// Too few children of an aggregation verifier succeeded.
    AggregationThresholdNotMet(u32),
}

/// The failure cases, without the free-text part of a collaborator failure.
#[derive(Debug, Clone, Copy, PartialEq, Eq, Structural)]
pub enum MetadataBuildErrorKind {
    FailedToBuild,
    MaxIsmDepthExceeded(u32),
    MaxIsmCountReached(u32),
    UnsupportedModuleType(ModuleType),
    AggregationThresholdNotMet(u32),
}

/// The kind of a failure.
pub open spec fn spec_error_kind(e: MetadataBuildError) -> MetadataBuildErrorKind {
    match e {
        MetadataBuildError::FailedToBuild(_) => MetadataBuildErrorKind::FailedToBuild,
        MetadataBuildError::MaxIsmDepthExceeded(d) => MetadataBuildErrorKind::MaxIsmDepthExceeded(
            d,
        ),
        MetadataBuildError::MaxIsmCountReached(c) => MetadataBuildErrorKind::MaxIsmCountReached(c),
        MetadataBuildError::UnsupportedModuleType(t) =>
            MetadataBuildErrorKind::UnsupportedModuleType(t),
        MetadataBuildError::AggregationThresholdNotMet(t) =>
            MetadataBuildErrorKind::AggregationThresholdNotMet(t),
    }
}

/// The collaborator interface the resolver walks the verifier tree through:
/// one implementation per chain backend, injected at construction.
///
/// Each query is a pure function of the environment, described by the spec
/// members; an executable method may fail, but when it answers, it answers
/// what the spec member says.
pub trait BuildsBaseMetadata: Sized {
    /// The classification of a verifier; nothing when the query fails.
    spec fn spec_module_type(&self, ism: H256) -> Option<ModuleType>;

    /// The child a routing verifier picks for the message.
    spec fn spec_route(&self, ism: H256, message: AetheriumMessage) -> Option<H256>;

    /// The children and threshold of an aggregation verifier.
    spec fn spec_modules_and_threshold(&self, ism: H256, message: AetheriumMessage) -> Option<
        (Seq<H256>, u8),
    >;

    /// The assembled signature metadata of a multisig verifier.
    spec fn spec_multisig_metadata(&self, ism: H256, message: AetheriumMessage, kind: ModuleType)
        -> Option<Seq<u8>>;

    /// The metadata an off-chain CCIP-read fetch returns.
    spec fn spec_ccip_read_metadata(&self, ism: H256, message: AetheriumMessage) -> Option<
        Seq<u8>,
    >;

    /// The rule table used to classify messages by application.
    spec fn spec_app_matching_lists(&self) -> Seq<(crate::matching::MatchingList, String)>;

    /// Queries the classification of a verifier.
    fn module_type(&self, ism: H256) -> (r: ChainResult<ModuleType>)
        ensures
            match r {
                Ok(t) => self.spec_module_type(ism) == Some(t),
                Err(_) => self.spec_module_type(ism) is None,
            },
    ;

    /// Queries a routing verifier for the child appropriate to the message.
    fn route(&self, ism: H256, message: &AetheriumMessage) -> (r: ChainResult<H256>)
        ensures
            match r {
                Ok(child) => self.spec_route(ism, *message) == Some(child),
                Err(_) => self.spec_route(ism, *message) is None,
            },
    ;

    /// Queries an aggregation verifier for its children and threshold.
    fn modules_and_threshold(&self, ism: H256, message: &AetheriumMessage) -> (r: ChainResult<
        (Vec<H256>, u8),
    >)
        ensures
            match r {
                Ok(p) => self.spec_modules_and_threshold(ism, *message) == Some((p.0@, p.1)),
                Err(_) => self.spec_modules_and_threshold(ism, *message) is None,
            },
    ;

    /// Collects and assembles the signature metadata of a multisig verifier.
    fn multisig_metadata(&self, ism: H256, message: &AetheriumMessage, kind: ModuleType) -> (r:
        ChainResult<Vec<u8>>)
        ensures
            match r {
                Ok(v) => self.spec_multisig_metadata(ism, *message, kind) == Some(v@),
                Err(_) => self.spec_multisig_metadata(ism, *message, kind) is None,
            },
    ;

    /// Performs the off-chain fetch a CCIP-read verifier asks for.
    fn ccip_read_metadata(&self, ism: H256, message: &AetheriumMessage) -> (r: ChainResult<
        Vec<u8>,
    >)
        ensures
            match r {
                Ok(v) => self.spec_ccip_read_metadata(ism, *message) == Some(v@),
                Err(_) => self.spec_ccip_read_metadata(ism, *message) is None,
            },
    ;

    /// The classifier that assigns application context labels.
    fn app_context_classifier(&self) -> (r: &IsmAwareAppContextClassifier)
        ensures
            r.app_matching_lists@ == self.spec_app_matching_lists(),
    ;
}

/// One node of the tree of resolver invocations: which verifier was visited
/// and at which depth, with the invocations it made in turn.
pub struct CallTree {
    pub ism: H256,
    pub depth: u32,
    pub children: Seq<CallTree>,
}

/// Every child call of every node sits exactly one level deeper than the
/// node that made it.
pub open spec fn spec_depths_increment(t: CallTree) -> bool
    decreases t,
{
    forall|i: int|
        0 <= i < t.children.len() ==> (#[trigger] t.children[i]).depth == t.depth + 1
            && spec_depths_increment(t.children[i])
}

/// What one resolver invocation comes to: its result, the value the shared
/// counter is left at, and the calls it made.
pub struct Resolution {
    pub result: Result<Seq<u8>, MetadataBuildErrorKind>,
    pub count: u32,
    pub calls: CallTree,
}

/// What resolving a list of children in order comes to: the metadata of the
/// children that succeeded, in child order; the value the shared counter is
/// left at; and the call trees of all children.
pub struct ChildResolution {
    pub successes: Seq<Seq<u8>>,
    pub count: u32,
    pub calls: Seq<CallTree>,
}

/// The levels of the depth budget still open at `depth`; a termination
/// measure.
pub open spec fn spec_depth_budget(max_depth: u32, depth: u32) -> int {
    if depth <= max_depth {
        max_depth - depth
    } else {
        0
    }
}

/// Concatenation of byte strings in order.
pub open spec fn spec_concat(s: Seq<Seq<u8>>) -> Seq<u8>
    decreases s.len(),
{
    if s.len() == 0 {
        Seq::empty()
    } else {
        s.first() + spec_concat(s.drop_first())
    }
}

/// The model of one resolver invocation on verifier `ism` at `depth`, with
/// the shared counter at `count`.
///
/// Mirrors the executable resolver step for step: classification first (a
/// failed query fails the branch and leaves the counter alone), then the
/// depth check, then the count check-and-increment, then dispatch by
/// classification.
pub open spec fn spec_resolve<E: BuildsBaseMetadata>(
    env: E,
    message: AetheriumMessage,
    max_depth: u32,
    max_count: u32,
    ism: H256,
    depth: u32,
    count: u32,
) -> Resolution
    decreases spec_depth_budget(max_depth, depth), 1int, 0int,
{
    let leaf = CallTree { ism, depth, children: Seq::empty() };
    match env.spec_module_type(ism) {
        Option::None => Resolution {
            result: Err(MetadataBuildErrorKind::FailedToBuild),
            count,
            calls: leaf,
        },
        Option::Some(module_type) => {
            if depth >= max_depth {
                Resolution {
                    result: Err(MetadataBuildErrorKind::MaxIsmDepthExceeded(max_depth)),
                    count,
                    calls: leaf,
                }
            } else if count >= max_count {
                Resolution {
                    result: Err(MetadataBuildErrorKind::MaxIsmCountReached(max_count)),
                    count,
                    calls: leaf,
                }
            } else {
                let next_count = (count + 1) as u32;
                let next_depth = (depth + 1) as u32;
                match module_type {
                    ModuleType::Null => Resolution {
                        result: Ok(Seq::empty()),
                        count: next_count,
                        calls: leaf,
                    },
                    ModuleType::MerkleRootMultisig | ModuleType::MessageIdMultisig => match env
                        .spec_multisig_metadata(ism, message, module_type) {
                        Option::Some(m) => Resolution {
                            result: Ok(m),
                            count: next_count,
                            calls: leaf,
                        },
                        Option::None => Resolution {
                            result: Err(MetadataBuildErrorKind::FailedToBuild),
                            count: next_count,
                            calls: leaf,
                        },
                    },
                    ModuleType::CcipRead => match env.spec_ccip_read_metadata(ism, message) {
                        Option::Some(m) => Resolution {
                            result: Ok(m),
                            count: next_count,
                            calls: leaf,
                        },
                        Option::None => Resolution {
                            result: Err(MetadataBuildErrorKind::FailedToBuild),
                            count: next_count,
                            calls: leaf,
                        },
                    },
                    ModuleType::Routing => match env.spec_route(ism, message) {
                        Option::None => Resolution {
                            result: Err(MetadataBuildErrorKind::FailedToBuild),
                            count: next_count,
                            calls: leaf,
                        },
                        Option::Some(child) => {
                            let sub = spec_resolve(
                                env,
                                message,
                                max_depth,
                                max_count,
                                child,
                                next_depth,
                                next_count,
                            );
                            Resolution {
                                result: sub.result,
                                count: sub.count,
                                calls: CallTree { ism, depth, children: seq![sub.calls] },
                            }
                        },
                    },
                    ModuleType::Aggregation => match env.spec_modules_and_threshold(ism, message) {
                        Option::None => Resolution {
                            result: Err(MetadataBuildErrorKind::FailedToBuild),
                            count: next_count,
                            calls: leaf,
                        },
                        Option::Some(pair) => {
                            let agg = spec_resolve_children(
                                env,
                                message,
                                max_depth,
                                max_count,
                                pair.0,
                                next_depth,
                                next_count,
                            );
                            let node = CallTree { ism, depth, children: agg.calls };
                            if agg.successes.len() >= pair.1 {
                                Resolution {
                                    result: Ok(spec_concat(agg.successes)),
                                    count: agg.count,
                                    calls: node,
                                }
                            } else {
                                Resolution {
                                    result: Err(
                                        MetadataBuildErrorKind::AggregationThresholdNotMet(
                                            pair.1 as u32,
                                        ),
                                    ),
                                    count: agg.count,
                                    calls: node,
                                }
                            }
                        },
                    },
                    ModuleType::Unused | ModuleType::LegacyMultisig => Resolution {
                        result: Err(MetadataBuildErrorKind::UnsupportedModuleType(module_type)),
                        count: next_count,
                        calls: leaf,
                    },
                }
            }
        },
    }
}

/// The model of resolving a list of children in order at one depth, each
/// child observing the counter value its predecessors left behind.
pub open spec fn spec_resolve_children<E: BuildsBaseMetadata>(
    env: E,
    message: AetheriumMessage,
    max_depth: u32,
    max_count: u32,
    children: Seq<H256>,
    depth: u32,
    count: u32,
) -> ChildResolution
    decreases spec_depth_budget(max_depth, depth) + 1, 0int, children.len(),
{
    if children.len() == 0 {
        ChildResolution { successes: Seq::empty(), count, calls: Seq::empty() }
    } else {
        let head = spec_resolve(env, message, max_depth, max_count, children[0], depth, count);
        let rest = spec_resolve_children(
            env,
            message,
            max_depth,
            max_count,
            children.drop_first(),
            depth,
            head.count,
        );
        ChildResolution {
            successes: (match head.result {
                Ok(m) => seq![m],
                Err(_) => Seq::empty(),
            }) + rest.successes,
            count: rest.count,
            calls: seq![head.calls] + rest.calls,
        }
    }
}

/// The per-message recursion state: the collaborator interface, the
/// application context of the message, and the two budgets.
#[derive(Debug, Clone)]
pub struct MessageMetadataBuilder<E: BuildsBaseMetadata> {
    pub base: E,
    pub app_context: Option<String>,
    pub max_ism_depth: u32,
    pub max_ism_count: u32,
}

impl<E: BuildsBaseMetadata> MessageMetadataBuilder<E> {
    /// Binds a resolver to a message and root verifier: classifies the
    /// message once, and fixes the default budgets.
    pub fn new(base: E, ism_address: H256, message: &AetheriumMessage) -> (r:
        MessageMetadataBuilder<E>)
        ensures
            r.base == base,
            r.max_ism_depth == ISM_MAX_DEPTH,
            r.max_ism_count == ISM_MAX_COUNT,
            match r.app_context {
                Some(label) => spec_app_context(base.spec_app_matching_lists(), *message,
                    ism_address,
                ) matches Some(l) && l@ == label@,
                None => spec_app_context(base.spec_app_matching_lists(), *message, ism_address)
                    is None,
            },
    {
        let app_context = base.app_context_classifier().get_app_context(message, ism_address);
        MessageMetadataBuilder {
            base,
            app_context,
            max_ism_depth: ISM_MAX_DEPTH,
            max_ism_count: ISM_MAX_COUNT,
        }
    }

    /// The collaborator interface this resolver queries through.
    pub fn base_builder(&self) -> (r: &E)
        ensures
            r == &self.base,
    {
        &self.base
    }

    /// The entry point of one resolution: walks the verifier tree under fresh
    /// budgets and returns the metadata for the message, or the reason none
    /// could be produced.
    pub fn build(&self, ism_address: H256, message: &AetheriumMessage) -> (r: Result<
        Metadata,
        MetadataBuildError,
    >)
        ensures
            ({
                let m = spec_resolve(
                    self.base,
                    *message,
                    self.max_ism_depth,
                    self.max_ism_count,
                    ism_address,
                    0u32,
                    0u32,
                );
                match r {
                    Ok(meta) => m.result matches Ok(b) && meta@ == b,
                    Err(e) => m.result matches Err(k) && spec_error_kind(e) == k,
                }
            }),
    {
        let mut ism_count: u32 = 0;
        build_message_metadata(self, ism_address, message, 0, &mut ism_count)
    }
}

/// One resolver invocation: fetches the classification of `ism_address`,
/// enforces the depth budget and then the count budget, and dispatches to the
/// strategy for the classification; routing and aggregation recurse one level
/// deeper through this same function.
///
/// Returns exactly what [`spec_resolve`] models for the incoming budget
/// state, and leaves the shared counter at exactly the modelled value.
#[verifier::loop_isolation(false)]
pub fn build_message_metadata<E: BuildsBaseMetadata>(
    message_builder: &MessageMetadataBuilder<E>,
    ism_address: H256,
    message: &AetheriumMessage,
    ism_depth: u32,
    ism_count: &mut u32,
) -> (r: Result<Metadata, MetadataBuildError>)
    ensures
        ({
            let m = spec_resolve(
                message_builder.base,
                *message,
                message_builder.max_ism_depth,
                message_builder.max_ism_count,
                ism_address,
                ism_depth,
                *old(ism_count),
            );
            &&& *final(ism_count) == m.count
            &&& (match r {
                Ok(meta) => m.result matches Ok(b) && meta@ == b,
                Err(e) => m.result matches Err(k) && spec_error_kind(e) == k,
            })
        }),
    decreases spec_depth_budget(message_builder.max_ism_depth, ism_depth), 1int, 0int,
{
    let module_type = match message_builder.base.module_type(ism_address) {
        Ok(t) => t,
        Err(e) => {
            return Err(MetadataBuildError::FailedToBuild(e.describe()));
        },
    };
    if ism_depth >= message_builder.max_ism_depth {
        return Err(MetadataBuildError::MaxIsmDepthExceeded(message_builder.max_ism_depth));
    }
    if *ism_count >= message_builder.max_ism_count {
        return Err(MetadataBuildError::MaxIsmCountReached(message_builder.max_ism_count));
    }
    *ism_count = *ism_count + 1;
    let next_depth = ism_depth + 1;
    match module_type {
        ModuleType::Null => Ok(Metadata(Vec::new())),
        ModuleType::MerkleRootMultisig | ModuleType::MessageIdMultisig => {
            match message_builder.base.multisig_metadata(ism_address, message, module_type) {
                Ok(v) => Ok(Metadata(v)),
                Err(e) => Err(MetadataBuildError::FailedToBuild(e.describe())),
            }
        },
        ModuleType::CcipRead => {
            match message_builder.base.ccip_read_metadata(ism_address, message) {
                Ok(v) => Ok(Metadata(v)),
                Err(e) => Err(MetadataBuildError::FailedToBuild(e.describe())),
            }
        },
        ModuleType::Routing => {
            match message_builder.base.route(ism_address, message) {
                Ok(child) => build_message_metadata(
                    message_builder,
                    child,
                    message,
                    next_depth,
                    ism_count,
                ),
                Err(e) => Err(MetadataBuildError::FailedToBuild(e.describe())),
            }
        },
        ModuleType::Aggregation => {
            match message_builder.base.modules_and_threshold(ism_address, message) {
                Ok(pair) => {
                    let (modules, threshold) = pair;
                    let ghost env = message_builder.base;
                    let ghost maxd = message_builder.max_ism_depth;
                    let ghost maxc = message_builder.max_ism_count;
                    let ghost full = spec_resolve_children(
                        env,
                        *message,
                        maxd,
                        maxc,
                        modules@,
                        next_depth,
                        *ism_count,
                    );
                    let mut metadatas: Vec<Vec<u8>> = Vec::new();
                    let len = modules.len();
                    proof {
                        assert(modules@.skip(0) =~= modules@);
                    }
                    let mut i: usize = 0;
                    while i < len
                        invariant
                            i <= len,
                            full.successes =~~= metadatas.deep_view() + spec_resolve_children(
                                env,
                                *message,
                                maxd,
                                maxc,
                                modules@.skip(i as int),
                                next_depth,
                                *ism_count,
                            ).successes,
                            full.count == spec_resolve_children(
                                env,
                                *message,
                                maxd,
                                maxc,
                                modules@.skip(i as int),
                                next_depth,
                                *ism_count,
                            ).count,
                        decreases len - i,
                    {
                        let ghost pre_count = *ism_count;
                        let ghost suffix = spec_resolve_children(
                            env,
                            *message,
                            maxd,
                            maxc,
                            modules@.skip(i as int),
                            next_depth,
                            pre_count,
                        );
                        proof {
                            assert(modules@.skip(i as int)[0] == modules@[i as int]);
                            assert(modules@.skip(i as int).drop_first() =~= modules@.skip(i + 1));
                        }
                        let child_result = build_message_metadata(
                            message_builder,
                            modules[i],
                            message,
                            next_depth,
                            ism_count,
                        );
                        let ghost head = spec_resolve(
                            env,
                            *message,
                            maxd,
                            maxc,
                            modules@[i as int],
                            next_depth,
                            pre_count,
                        );
                        let ghost old_metadatas = metadatas.deep_view();
                        match child_result {
                            Ok(meta) => {
                                metadatas.push(meta.0);
                                proof {
                                    assert(metadatas.deep_view() =~~= old_metadatas + seq![
                                        head.result->Ok_0,
                                    ]);
                                }
                            },
                            Err(_) => {},
                        }
                        proof {
                            let rest = spec_resolve_children(
                                env,
                                *message,
                                maxd,
                                maxc,
                                modules@.skip(i + 1),
                                next_depth,
                                head.count,
                            );
                            assert(suffix.successes == (match head.result {
                                Ok(m) => seq![m],
                                Err(_) => Seq::<Seq<u8>>::empty(),
                            }) + rest.successes);
                            assert(suffix.count == rest.count);
                            assert(full.successes =~~= metadatas.deep_view() + rest.successes);
                        }
                        i = i + 1;
                    }
                    proof {
                        assert(modules@.skip(len as int) =~= Seq::<H256>::empty());
                        assert(full.successes =~~= metadatas.deep_view());
                    }
                    if metadatas.len() >= threshold as usize {
                        let combined = concat_byte_vecs(&metadatas);
                        Ok(Metadata(combined))
                    } else {
                        Err(MetadataBuildError::AggregationThresholdNotMet(threshold as u32))
                    }
                },
                Err(e) => Err(MetadataBuildError::FailedToBuild(e.describe())),
            }
        },
        ModuleType::Unused | ModuleType::LegacyMultisig => Err(
            MetadataBuildError::UnsupportedModuleType(module_type),
        ),
    }
}

/// Depth monotonicity: a resolver invocation at some depth only ever invokes
/// children at the next depth, level by level, on every path of the call
/// tree; no level is skipped and no increment is missed.
pub proof fn lemma_depth_monotonicity<E: BuildsBaseMetadata>(
    env: E,
    message: AetheriumMessage,
    max_depth: u32,
    max_count: u32,
    ism: H256,
    depth: u32,
    count: u32,
)
    ensures
        ({
            let m = spec_resolve(env, message, max_depth, max_count, ism, depth, count);
            &&& m.calls.ism == ism
            &&& m.calls.depth == depth
            &&& spec_depths_increment(m.calls)
        }),
    decreases spec_depth_budget(max_depth, depth), 1int, 0int,
{
    let m = spec_resolve(env, message, max_depth, max_count, ism, depth, count);
    if env.spec_module_type(ism) is Some && depth < max_depth && count < max_count {
        let module_type = env.spec_module_type(ism)->0;
        let next_depth = (depth + 1) as u32;
        let next_count = (count + 1) as u32;
        match module_type {
            ModuleType::Routing => {
                if env.spec_route(ism, message) is Some {
                    let child = env.spec_route(ism, message)->0;
                    lemma_depth_monotonicity(
                        env,
                        message,
                        max_depth,
                        max_count,
                        child,
                        next_depth,
                        next_count,
                    );
                    let sub = spec_resolve(
                        env,
                        message,
                        max_depth,
                        max_count,
                        child,
                        next_depth,
                        next_count,
                    );
                    assert(m.calls.children =~= seq![sub.calls]);
                }
            },
            ModuleType::Aggregation => {
                if env.spec_modules_and_threshold(ism, message) is Some {
                    let pair = env.spec_modules_and_threshold(ism, message)->0;
                    lemma_depth_monotonicity_children(
                        env,
                        message,
                        max_depth,
                        max_count,
                        pair.0,
                        next_depth,
                        next_count,
                    );
                }
            },
            _ => {},
        }
    }
}

/// Depth monotonicity over a child list: every call tree of the list sits at
/// the given depth and increments level by level below it.
pub proof fn lemma_depth_monotonicity_children<E: BuildsBaseMetadata>(
    env: E,
    message: AetheriumMessage,
    max_depth: u32,
    max_count: u32,
    children: Seq<H256>,
    depth: u32,
    count: u32,
)
    ensures
        ({
            let agg = spec_resolve_children(
                env,
                message,
                max_depth,
                max_count,
                children,
                depth,
                count,
            );
            &&& agg.calls.len() == children.len()
            &&& forall|i: int|
                0 <= i < agg.calls.len() ==> (#[trigger] agg.calls[i]).depth == depth
                    && spec_depths_increment(agg.calls[i])
        }),
    decreases spec_depth_budget(max_depth, depth) + 1, 0int, children.len(),
{
    if children.len() > 0 {
        lemma_depth_monotonicity(env, message, max_depth, max_count, children[0], depth, count);
        let head = spec_resolve(env, message, max_depth, max_count, children[0], depth, count);
        lemma_depth_monotonicity_children(
            env,
            message,
            max_depth,
            max_count,
            children.drop_first(),
            depth,
            head.count,
        );
    }
}

/// Count global bound: one resolver invocation never moves the shared counter
/// backwards, and never past the count budget when it started within it —
/// however many aggregation branches run under it.
pub proof fn lemma_count_global_bound<E: BuildsBaseMetadata>(
    env: E,
    message: AetheriumMessage,
    max_depth: u32,
    max_count: u32,
    ism: H256,
    depth: u32,
    count: u32,
)
    ensures
        ({
            let m = spec_resolve(env, message, max_depth, max_count, ism, depth, count);
            &&& m.count >= count
            &&& count <= max_count ==> m.count <= max_count
        }),
    decreases spec_depth_budget(max_depth, depth), 1int, 0int,
{
    if env.spec_module_type(ism) is Some && depth < max_depth && count < max_count {
        let module_type = env.spec_module_type(ism)->0;
        let next_depth = (depth + 1) as u32;
        let next_count = (count + 1) as u32;
        match module_type {
            ModuleType::Routing => {
                if env.spec_route(ism, message) is Some {
                    lemma_count_global_bound(
                        env,
                        message,
                        max_depth,
                        max_count,
                        env.spec_route(ism, message)->0,
                        next_depth,
                        next_count,
                    );
                }
            },
            ModuleType::Aggregation => {
                if env.spec_modules_and_threshold(ism, message) is Some {
                    lemma_count_global_bound_children(
                        env,
                        message,
                        max_depth,
                        max_count,
                        (env.spec_modules_and_threshold(ism, message)->0).0,
                        next_depth,
                        next_count,
                    );
                }
            },
            _ => {},
        }
    }
}

/// Count global bound over a child list resolved in order.
pub proof fn lemma_count_global_bound_children<E: BuildsBaseMetadata>(
    env: E,
    message: AetheriumMessage,
    max_depth: u32,
    max_count: u32,
    children: Seq<H256>,
    depth: u32,
    count: u32,
)
    ensures
        ({
            let agg = spec_resolve_children(
                env,
                message,
                max_depth,
                max_count,
                children,
                depth,
                count,
            );
            &&& agg.count >= count
            &&& count <= max_count ==> agg.count <= max_count
        }),
    decreases spec_depth_budget(max_depth, depth) + 1, 0int, children.len(),
{
    if children.len() > 0 {
        lemma_count_global_bound(env, message, max_depth, max_count, children[0], depth, count);
        let head = spec_resolve(env, message, max_depth, max_count, children[0], depth, count);
        lemma_count_global_bound_children(
            env,
            message,
            max_depth,
            max_count,
            children.drop_first(),
            depth,
            head.count,
        );
    }
}

/// Depth-zero rejection: with a depth budget of zero, a verifier whose
/// classification answers is rejected with the depth error before any
/// classification-specific work, and the shared counter is left alone.
pub proof fn lemma_depth_zero_rejection<E: BuildsBaseMetadata>(
    env: E,
    message: AetheriumMessage,
    max_count: u32,
    ism: H256,
    depth: u32,
    count: u32,
)
    requires
        env.spec_module_type(ism) is Some,
    ensures
        ({
            let m = spec_resolve(env, message, 0u32, max_count, ism, depth, count);
            &&& m.result == Err::<Seq<u8>, _>(MetadataBuildErrorKind::MaxIsmDepthExceeded(0u32))
            &&& m.count == count
        }),
{
}

/// Count-zero rejection: with a count budget of zero and depth budget left, a
/// verifier whose classification answers is rejected with the count error on
/// the very first check, and the shared counter is left alone.
pub proof fn lemma_count_zero_rejection<E: BuildsBaseMetadata>(
    env: E,
    message: AetheriumMessage,
    max_depth: u32,
    ism: H256,
    depth: u32,
    count: u32,
)
    requires
        env.spec_module_type(ism) is Some,
        depth < max_depth,
    ensures
        ({
            let m = spec_resolve(env, message, max_depth, 0u32, ism, depth, count);
            &&& m.result == Err::<Seq<u8>, _>(MetadataBuildErrorKind::MaxIsmCountReached(0u32))
            &&& m.count == count
        }),
{
}

/// Routing delegation purity: a routing verifier that routes to a null
/// verifier produces exactly the metadata of resolving that null verifier
/// directly — empty metadata — and its one child call sits exactly one level
/// deeper.
pub proof fn lemma_routing_delegation_purity<E: BuildsBaseMetadata>(
    env: E,
    message: AetheriumMessage,
    max_depth: u32,
    max_count: u32,
    router: H256,
    depth: u32,
    count: u32,
)
    requires
        env.spec_module_type(router) == Some(ModuleType::Routing),
        env.spec_route(router, message) is Some,
        env.spec_module_type(env.spec_route(router, message)->0) == Some(ModuleType::Null),
        depth + 1 < max_depth,
        count + 1 < max_count,
    ensures
        ({
            let child = env.spec_route(router, message)->0;
            let through = spec_resolve(env, message, max_depth, max_count, router, depth, count);
            let direct = spec_resolve(env, message, max_depth, max_count, child, depth, count);
            &&& through.result == Ok::<Seq<u8>, MetadataBuildErrorKind>(Seq::empty())
            &&& through.result == direct.result
            &&& through.count == count + 2
            &&& direct.count == count + 1
            &&& through.calls.children.len() == 1
            &&& through.calls.children[0].depth == depth + 1
        }),
{
    let child = env.spec_route(router, message)->0;
    let sub = spec_resolve(
        env,
        message,
        max_depth,
        max_count,
        child,
        (depth + 1) as u32,
        (count + 1) as u32,
    );
    assert(sub.result == Ok::<Seq<u8>, MetadataBuildErrorKind>(Seq::empty()));
}

/// How many entries of a child list are classified as null verifiers.
pub open spec fn spec_count_null<E: BuildsBaseMetadata>(env: E, children: Seq<H256>) -> nat
    decreases children.len(),
{
    if children.len() == 0 {
        0nat
    } else {
        (if env.spec_module_type(children[0]) == Some(ModuleType::Null) {
            1nat
        } else {
            0nat
        }) + spec_count_null(env, children.drop_first())
    }
}

/// Children that are each either null verifiers or unresolvable (their
/// classification query fails) yield exactly one empty success per null
/// child, and consume exactly one count per null child.
pub proof fn lemma_null_children_successes<E: BuildsBaseMetadata>(
    env: E,
    message: AetheriumMessage,
    max_depth: u32,
    max_count: u32,
    children: Seq<H256>,
    depth: u32,
    count: u32,
)
    requires
        depth < max_depth,
        count + spec_count_null(env, children) <= max_count,
        forall|i: int|
            0 <= i < children.len() ==> (#[trigger] env.spec_module_type(children[i])) == Some(
                ModuleType::Null,
            ) || env.spec_module_type(children[i]) is None,
    ensures
        ({
            let agg = spec_resolve_children(
                env,
                message,
                max_depth,
                max_count,
                children,
                depth,
                count,
            );
            &&& agg.successes.len() == spec_count_null(env, children)
            &&& agg.count == count + spec_count_null(env, children)
        }),
    decreases children.len(),
{
    if children.len() > 0 {
        let head = spec_resolve(env, message, max_depth, max_count, children[0], depth, count);
        assert(env.spec_module_type(children[0]) == Some(ModuleType::Null)
            || env.spec_module_type(children[0]) is None);
        if env.spec_module_type(children[0]) == Some(ModuleType::Null) {
            assert(count < max_count);
            assert(head.result == Ok::<Seq<u8>, MetadataBuildErrorKind>(Seq::empty()));
            assert(head.count == count + 1);
            lemma_null_children_successes(
                env,
                message,
                max_depth,
                max_count,
                children.drop_first(),
                depth,
                (count + 1) as u32,
            );
        } else {
            assert(head.result == Err::<Seq<u8>, _>(MetadataBuildErrorKind::FailedToBuild));
            assert(head.count == count);
            lemma_null_children_successes(
                env,
                message,
                max_depth,
                max_count,
                children.drop_first(),
                depth,
                count,
            );
        }
    }
}

/// Aggregation partial success: an aggregation verifier whose children are
/// each either null verifiers (which trivially succeed) or unresolvable
/// succeeds exactly when at least `threshold` of them are null; with fewer,
/// it fails with the threshold error even though some children succeeded.
pub proof fn lemma_aggregation_partial_success<E: BuildsBaseMetadata>(
    env: E,
    message: AetheriumMessage,
    max_depth: u32,
    max_count: u32,
    ism: H256,
    depth: u32,
    count: u32,
    children: Seq<H256>,
    threshold: u8,
)
    requires
        env.spec_module_type(ism) == Some(ModuleType::Aggregation),
        env.spec_modules_and_threshold(ism, message) == Some((children, threshold)),
        forall|i: int|
            0 <= i < children.len() ==> (#[trigger] env.spec_module_type(children[i])) == Some(
                ModuleType::Null,
            ) || env.spec_module_type(children[i]) is None,
        depth + 1 < max_depth,
        count + 1 + spec_count_null(env, children) <= max_count,
    ensures
        ({
            let m = spec_resolve(env, message, max_depth, max_count, ism, depth, count);
            &&& spec_count_null(env, children) >= threshold ==> m.result is Ok
            &&& spec_count_null(env, children) < threshold ==> m.result == Err::<Seq<u8>, _>(
                MetadataBuildErrorKind::AggregationThresholdNotMet(threshold as u32),
            )
        }),
{
    lemma_null_children_successes(
        env,
        message,
        max_depth,
        max_count,
        children,
        (depth + 1) as u32,
        (count + 1) as u32,
    );
}

/// Concatenates byte strings in order.
#[verifier::loop_isolation(false)]
fn concat_byte_vecs(pieces: &Vec<Vec<u8>>) -> (r: Vec<u8>)
    ensures
        r@ == spec_concat(pieces.deep_view()),
{
    let mut out: Vec<u8> = Vec::new();
    let len = pieces.len();
    proof {
        assert(pieces.deep_view().skip(0) =~~= pieces.deep_view());
    }
    let mut i: usize = 0;
    while i < len
        invariant
            i <= len,
            out@ + spec_concat(pieces.deep_view().skip(i as int)) == spec_concat(
                pieces.deep_view(),
            ),
        decreases len - i,
    {
        proof {
            assert(pieces.deep_view().skip(i as int).first() == pieces@[i as int]@);
            assert(pieces.deep_view().skip(i as int).drop_first() =~~= pieces.deep_view().skip(
                i + 1,
            ));
        }
        crate::message::push_bytes(&mut out, pieces[i].as_slice());
        i = i + 1;
    }
    proof {
        assert(pieces.deep_view().skip(len as int) =~~= Seq::<Seq<u8>>::empty());
        assert(out@ =~= out@ + spec_concat(pieces.deep_view().skip(len as int)));
    }
    out
}

} // verus!

