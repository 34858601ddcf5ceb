use aetherium::test_utils::{IsmConfig, MockBaseMetadataBuilder};
use aetherium::{
    build_message_metadata, AetheriumMessage, Filter, IsmAwareAppContextClassifier, ListElement,
    MatchingList, MessageMetadataBuilder, MetadataBuildError, ModuleType, H256,
};

fn build_mock_base_builder() -> MockBaseMetadataBuilder {
    let rules = vec![(
        MatchingList(Some(vec![ListElement::new(
            Filter::Wildcard,
            Filter::Wildcard,
            Filter::Wildcard,
            Filter::Wildcard,
            Filter::Wildcard,
        )])),
        "abcd".to_string(),
    )];
    MockBaseMetadataBuilder::new(IsmAwareAppContextClassifier::new(rules))
}

fn insert_null_isms(base_builder: &mut MockBaseMetadataBuilder, addresses: &[H256]) {
    for ism_address in addresses {
        base_builder.push_ism(*ism_address, IsmConfig::Null);
    }
}

fn insert_mock_routing_isms(base_builder: &mut MockBaseMetadataBuilder, addresses: &[(H256, H256)]) {
    for (ism_address, route_address) in addresses {
        base_builder.push_ism(*ism_address, IsmConfig::Routing(*route_address));
    }
}

fn insert_mock_aggregation_isms(
    base_builder: &mut MockBaseMetadataBuilder,
    addresses: Vec<(H256, Vec<H256>, u8)>,
) {
    for (ism_address, aggregation_addresses, threshold) in addresses {
        base_builder.push_ism(
            ism_address,
            IsmConfig::Aggregation(aggregation_addresses, threshold),
        );
    }
}

/// The aggregation-of-aggregations tree: the root aggregates three
/// aggregation verifiers, each of which aggregates two routing verifiers
/// that route to null verifiers.
fn insert_ism_test_data(base_builder: &mut MockBaseMetadataBuilder) {
    insert_mock_aggregation_isms(
        base_builder,
        vec![
            (
                H256::from_low_u64_be(0),
                vec![
                    H256::from_low_u64_be(100),
                    H256::from_low_u64_be(200),
                    H256::from_low_u64_be(300),
                ],
                2,
            ),
            (
                H256::from_low_u64_be(100),
                vec![H256::from_low_u64_be(110), H256::from_low_u64_be(120)],
                2,
            ),
            (
                H256::from_low_u64_be(200),
                vec![H256::from_low_u64_be(210), H256::from_low_u64_be(220)],
                2,
            ),
            (
                H256::from_low_u64_be(300),
                vec![H256::from_low_u64_be(310), H256::from_low_u64_be(320)],
                2,
            ),
        ],
    );

    insert_mock_routing_isms(
        base_builder,
        &[
            (H256::from_low_u64_be(110), H256::from_low_u64_be(1100)),
            (H256::from_low_u64_be(120), H256::from_low_u64_be(1200)),
            (H256::from_low_u64_be(210), H256::from_low_u64_be(2100)),
            (H256::from_low_u64_be(220), H256::from_low_u64_be(2200)),
            (H256::from_low_u64_be(310), H256::from_low_u64_be(3100)),
            (H256::from_low_u64_be(320), H256::from_low_u64_be(3200)),
        ],
    );

    insert_null_isms(
        base_builder,
        &[
            H256::from_low_u64_be(1100),
            H256::from_low_u64_be(1200),
            H256::from_low_u64_be(2100),
            H256::from_low_u64_be(2200),
            H256::from_low_u64_be(3100),
            H256::from_low_u64_be(3200),
        ],
    );
}

#[test]
fn depth_already_reached() {
    let mut base_builder = build_mock_base_builder();
    insert_null_isms(&mut base_builder, &[H256::zero()]);

    let ism_address = H256::zero();
    let message = AetheriumMessage::default();
    let message_builder = {
        let mut builder = MessageMetadataBuilder::new(base_builder, ism_address, &message);
        builder.max_ism_depth = 0;
        builder
    };
    let mut ism_count: u32 = 0;
    let err = build_message_metadata(&message_builder, ism_address, &message, 0, &mut ism_count)
        .err()
        .expect("Metadata found when it should have failed");
    assert_eq!(err, MetadataBuildError::MaxIsmDepthExceeded(0));
    assert_eq!(ism_count, 0);
}

#[test]
fn ism_count_already_reached() {
    let mut base_builder = build_mock_base_builder();
    insert_null_isms(&mut base_builder, &[H256::zero()]);

    let ism_address = H256::zero();
    let message = AetheriumMessage::default();

    let message_builder = {
        let mut builder = MessageMetadataBuilder::new(base_builder, ism_address, &message);
        builder.max_ism_count = 0;
        builder
    };

    let mut ism_count: u32 = 0;
    let err = build_message_metadata(&message_builder, ism_address, &message, 0, &mut ism_count)
        .err()
        .expect("Metadata found when it should have failed");
    assert_eq!(err, MetadataBuildError::MaxIsmCountReached(0));
    assert_eq!(ism_count, 0);
}

#[test]
fn max_depth_reached() {
    let mut base_builder = build_mock_base_builder();
    insert_ism_test_data(&mut base_builder);

    let ism_address = H256::zero();
    let message = AetheriumMessage::default();

    let message_builder = {
        let mut builder = MessageMetadataBuilder::new(base_builder, ism_address, &message);
        builder.max_ism_depth = 2;
        builder
    };

    let root = H256::from_low_u64_be(0);
    let mut ism_count: u32 = 0;
    let err = build_message_metadata(&message_builder, root, &message, 0, &mut ism_count)
        .err()
        .expect("Metadata found when it should have failed");
    assert_eq!(err, MetadataBuildError::AggregationThresholdNotMet(2));
    assert!(ism_count <= 4);
}

#[test]
fn max_ism_count_reached() {
    let mut base_builder = build_mock_base_builder();
    insert_ism_test_data(&mut base_builder);

    let ism_address = H256::zero();
    let message = AetheriumMessage::default();

    let message_builder = {
        let mut builder = MessageMetadataBuilder::new(base_builder, ism_address, &message);
        builder.max_ism_count = 5;
        builder
    };

    let root = H256::from_low_u64_be(0);
    let mut ism_count: u32 = 0;
    let err = build_message_metadata(&message_builder, root, &message, 0, &mut ism_count)
        .err()
        .expect("Metadata found when it should have failed");
    assert_eq!(err, MetadataBuildError::AggregationThresholdNotMet(2));
    assert_eq!(ism_count, 5);
}

#[test]
fn builder_defaults_and_app_context() {
    let mut base_builder = build_mock_base_builder();
    insert_null_isms(&mut base_builder, &[H256::zero()]);
    let message = AetheriumMessage::default();
    let builder = MessageMetadataBuilder::new(base_builder, H256::zero(), &message);
    assert_eq!(builder.max_ism_depth, 13);
    assert_eq!(builder.max_ism_count, 100);
    assert_eq!(builder.app_context, Some("abcd".to_string()));
    assert_eq!(builder.base_builder().isms.len(), 1);
}

#[test]
fn app_context_first_match_wins() {
    let broad = MatchingList(None);
    let narrow = MatchingList(Some(vec![ListElement::new(
        Filter::Enumerated(vec![7]),
        Filter::Wildcard,
        Filter::Wildcard,
        Filter::Wildcard,
        Filter::Wildcard,
    )]));
    let classifier = IsmAwareAppContextClassifier::new(vec![
        (narrow, "narrow".to_string()),
        (broad, "broad".to_string()),
    ]);

    let mut message = AetheriumMessage::default();
    assert_eq!(
        classifier.get_app_context(&message, H256::zero()),
        Some("broad".to_string())
    );
    message.origin = 7;
    assert_eq!(
        classifier.get_app_context(&message, H256::zero()),
        Some("narrow".to_string())
    );

    let none = IsmAwareAppContextClassifier::new(vec![]);
    assert_eq!(none.get_app_context(&message, H256::zero()), None);
}

#[test]
fn app_context_verifier_pattern() {
    let by_verifier = MatchingList(Some(vec![ListElement::new(
        Filter::Wildcard,
        Filter::Wildcard,
        Filter::Wildcard,
        Filter::Wildcard,
        Filter::Enumerated(vec![H256::from_low_u64_be(5)]),
    )]));
    let classifier = IsmAwareAppContextClassifier::new(vec![(by_verifier, "five".to_string())]);
    let message = AetheriumMessage::default();
    assert_eq!(
        classifier.get_app_context(&message, H256::from_low_u64_be(5)),
        Some("five".to_string())
    );
    assert_eq!(
        classifier.get_app_context(&message, H256::from_low_u64_be(6)),
        None
    );
}

#[test]
fn null_resolves_to_empty_metadata() {
    let mut base_builder = build_mock_base_builder();
    insert_null_isms(&mut base_builder, &[H256::zero()]);
    let message = AetheriumMessage::default();
    let builder = MessageMetadataBuilder::new(base_builder, H256::zero(), &message);
    let metadata = builder.build(H256::zero(), &message).unwrap();
    assert!(metadata.0.is_empty());
}

#[test]
fn depth_zero_rejects_non_trivial_verifier() {
    let mut base_builder = build_mock_base_builder();
    let root = H256::from_low_u64_be(1);
    let inner = H256::from_low_u64_be(2);
    insert_mock_routing_isms(&mut base_builder, &[(root, inner)]);
    insert_null_isms(&mut base_builder, &[inner]);
    let message = AetheriumMessage::default();
    let mut builder = MessageMetadataBuilder::new(base_builder, root, &message);
    builder.max_ism_depth = 0;
    let err = builder.build(root, &message).unwrap_err();
    assert_eq!(err, MetadataBuildError::MaxIsmDepthExceeded(0));
}

#[test]
fn count_zero_rejects_first_verifier() {
    let mut base_builder = build_mock_base_builder();
    insert_null_isms(&mut base_builder, &[H256::zero()]);
    let message = AetheriumMessage::default();
    let mut builder = MessageMetadataBuilder::new(base_builder, H256::zero(), &message);
    builder.max_ism_count = 0;
    let err = builder.build(H256::zero(), &message).unwrap_err();
    assert_eq!(err, MetadataBuildError::MaxIsmCountReached(0));
}

#[test]
fn routing_delegates_to_null() {
    let mut base_builder = build_mock_base_builder();
    let router = H256::from_low_u64_be(1);
    let null_ism = H256::from_low_u64_be(2);
    insert_mock_routing_isms(&mut base_builder, &[(router, null_ism)]);
    insert_null_isms(&mut base_builder, &[null_ism]);
    let message = AetheriumMessage::default();
    let builder = MessageMetadataBuilder::new(base_builder, router, &message);

    let mut through_count: u32 = 0;
    let through = build_message_metadata(&builder, router, &message, 0, &mut through_count)
        .unwrap();
    let mut direct_count: u32 = 0;
    let direct = build_message_metadata(&builder, null_ism, &message, 0, &mut direct_count)
        .unwrap();

    assert_eq!(through, direct);
    assert!(through.0.is_empty());
    assert_eq!(through_count, 2);
    assert_eq!(direct_count, 1);
}

#[test]
fn aggregation_tolerates_failing_children() {
    let mut base_builder = build_mock_base_builder();
    let root = H256::from_low_u64_be(1);
    let good_a = H256::from_low_u64_be(2);
    let good_b = H256::from_low_u64_be(3);
    let missing = H256::from_low_u64_be(4);
    insert_mock_aggregation_isms(
        &mut base_builder,
        vec![(root, vec![good_a, missing, good_b], 2)],
    );
    insert_null_isms(&mut base_builder, &[good_a, good_b]);
    let message = AetheriumMessage::default();
    let builder = MessageMetadataBuilder::new(base_builder, root, &message);
    let metadata = builder.build(root, &message).unwrap();
    assert!(metadata.0.is_empty());
}

#[test]
fn aggregation_threshold_not_met() {
    let mut base_builder = build_mock_base_builder();
    let root = H256::from_low_u64_be(1);
    let good = H256::from_low_u64_be(2);
    let missing_a = H256::from_low_u64_be(3);
    let missing_b = H256::from_low_u64_be(4);
    insert_mock_aggregation_isms(
        &mut base_builder,
        vec![(root, vec![good, missing_a, missing_b], 2)],
    );
    insert_null_isms(&mut base_builder, &[good]);
    let message = AetheriumMessage::default();
    let builder = MessageMetadataBuilder::new(base_builder, root, &message);
    let err = builder.build(root, &message).unwrap_err();
    assert_eq!(err, MetadataBuildError::AggregationThresholdNotMet(2));
}

#[test]
fn aggregation_concatenates_successful_metadata() {
    let mut base_builder = build_mock_base_builder();
    let root = H256::from_low_u64_be(1);
    let first = H256::from_low_u64_be(2);
    let second = H256::from_low_u64_be(3);
    insert_mock_aggregation_isms(&mut base_builder, vec![(root, vec![first, second], 2)]);
    base_builder.push_ism(first, IsmConfig::MessageIdMultisig(vec![1]));
    base_builder.push_ism(second, IsmConfig::MessageIdMultisig(vec![2, 3]));
    let message = AetheriumMessage::default();
    let builder = MessageMetadataBuilder::new(base_builder, root, &message);
    let metadata = builder.build(root, &message).unwrap();
    assert_eq!(metadata.0, vec![1, 2, 3]);
}

/// The tree of the budget scenarios: an aggregation root with threshold 2
/// over children a and b (each routing to a null verifier) and c, which
/// routes to another routing verifier before reaching its null verifier.
fn insert_scenario_tree(base_builder: &mut MockBaseMetadataBuilder) {
    let root = H256::from_low_u64_be(0);
    let a = H256::from_low_u64_be(1);
    let b = H256::from_low_u64_be(2);
    let c = H256::from_low_u64_be(3);
    let null_a = H256::from_low_u64_be(11);
    let null_b = H256::from_low_u64_be(12);
    let c_inner = H256::from_low_u64_be(13);
    let null_c = H256::from_low_u64_be(14);
    insert_mock_aggregation_isms(base_builder, vec![(root, vec![a, b, c], 2)]);
    insert_mock_routing_isms(
        base_builder,
        &[(a, null_a), (b, null_b), (c, c_inner), (c_inner, null_c)],
    );
    insert_null_isms(base_builder, &[null_a, null_b, null_c]);
}

#[test]
fn scenario_depth_budget() {
    let message = AetheriumMessage::default();
    let root = H256::from_low_u64_be(0);

    // With three levels of depth budget, the deeper branch through the
    // second routing hop runs out of depth, but the two shallow branches
    // meet the threshold.
    let mut base_builder = build_mock_base_builder();
    insert_scenario_tree(&mut base_builder);
    let mut builder = MessageMetadataBuilder::new(base_builder, root, &message);
    builder.max_ism_depth = 3;
    assert!(builder.build(root, &message).is_ok());

    // With a single level, every child of the root runs out of depth.
    let mut base_builder = build_mock_base_builder();
    insert_scenario_tree(&mut base_builder);
    let mut builder = MessageMetadataBuilder::new(base_builder, root, &message);
    builder.max_ism_depth = 1;
    let err = builder.build(root, &message).unwrap_err();
    assert_eq!(err, MetadataBuildError::AggregationThresholdNotMet(2));
}

#[test]
fn scenario_count_budget() {
    let message = AetheriumMessage::default();
    let root = H256::from_low_u64_be(0);

    // Root, a, a's null, b and b's null consume the budget of five exactly;
    // the sixth verifier (c's first hop) is rejected, leaving exactly enough
    // successes to meet the threshold.
    let mut base_builder = build_mock_base_builder();
    insert_scenario_tree(&mut base_builder);
    let mut builder = MessageMetadataBuilder::new(base_builder, root, &message);
    builder.max_ism_count = 5;
    let mut ism_count: u32 = 0;
    let result = build_message_metadata(&builder, root, &message, 0, &mut ism_count);
    assert!(result.is_ok());
    assert_eq!(ism_count, 5);

    // One budget unit fewer fails the second shallow branch as well, so the
    // threshold cannot be met any more.
    let mut base_builder = build_mock_base_builder();
    insert_scenario_tree(&mut base_builder);
    let mut builder = MessageMetadataBuilder::new(base_builder, root, &message);
    builder.max_ism_count = 4;
    let err = builder.build(root, &message).unwrap_err();
    assert_eq!(err, MetadataBuildError::AggregationThresholdNotMet(2));
}

#[test]
fn aggregation_with_no_children_and_zero_threshold() {
    let message = AetheriumMessage::default();
    let root = H256::from_low_u64_be(1);
    let mut base_builder = build_mock_base_builder();
    insert_mock_aggregation_isms(&mut base_builder, vec![(root, vec![], 0)]);
    let builder = MessageMetadataBuilder::new(base_builder, root, &message);
    let metadata = builder.build(root, &message).unwrap();
    assert!(metadata.0.is_empty());
}

#[test]
fn aggregation_threshold_above_child_count() {
    let message = AetheriumMessage::default();
    let root = H256::from_low_u64_be(1);
    let only = H256::from_low_u64_be(2);
    let mut base_builder = build_mock_base_builder();
    insert_mock_aggregation_isms(&mut base_builder, vec![(root, vec![only], 2)]);
    insert_null_isms(&mut base_builder, &[only]);
    let builder = MessageMetadataBuilder::new(base_builder, root, &message);
    assert_eq!(
        builder.build(root, &message).unwrap_err(),
        MetadataBuildError::AggregationThresholdNotMet(2)
    );
}

#[test]
fn unsupported_module_types_are_rejected() {
    let message = AetheriumMessage::default();
    let root = H256::from_low_u64_be(1);

    let mut base_builder = build_mock_base_builder();
    base_builder.push_ism(root, IsmConfig::Unused);
    let builder = MessageMetadataBuilder::new(base_builder, root, &message);
    assert_eq!(
        builder.build(root, &message).unwrap_err(),
        MetadataBuildError::UnsupportedModuleType(ModuleType::Unused)
    );

    let mut base_builder = build_mock_base_builder();
    base_builder.push_ism(root, IsmConfig::LegacyMultisig);
    let builder = MessageMetadataBuilder::new(base_builder, root, &message);
    assert_eq!(
        builder.build(root, &message).unwrap_err(),
        MetadataBuildError::UnsupportedModuleType(ModuleType::LegacyMultisig)
    );
}

#[test]
fn multisig_metadata_flows_through() {
    let message = AetheriumMessage::default();
    let root = H256::from_low_u64_be(1);

    let mut base_builder = build_mock_base_builder();
    base_builder.push_ism(root, IsmConfig::MerkleRootMultisig(vec![4, 5, 6]));
    let builder = MessageMetadataBuilder::new(base_builder, root, &message);
    assert_eq!(builder.build(root, &message).unwrap().0, vec![4, 5, 6]);

    let mut base_builder = build_mock_base_builder();
    base_builder.push_ism(root, IsmConfig::MessageIdMultisig(vec![7]));
    let builder = MessageMetadataBuilder::new(base_builder, root, &message);
    assert_eq!(builder.build(root, &message).unwrap().0, vec![7]);
}

#[test]
fn ccip_read_metadata_flows_through() {
    let message = AetheriumMessage::default();
    let root = H256::from_low_u64_be(1);
    let mut base_builder = build_mock_base_builder();
    base_builder.push_ism(root, IsmConfig::CcipRead(vec![0xcc]));
    let builder = MessageMetadataBuilder::new(base_builder, root, &message);
    assert_eq!(builder.build(root, &message).unwrap().0, vec![0xcc]);
}

#[test]
fn classification_failure_is_surfaced() {
    let message = AetheriumMessage::default();
    let root = H256::from_low_u64_be(1);
    let base_builder = build_mock_base_builder();
    let builder = MessageMetadataBuilder::new(base_builder, root, &message);
    assert!(matches!(
        builder.build(root, &message).unwrap_err(),
        MetadataBuildError::FailedToBuild(_)
    ));
}

#[test]
fn module_type_from_u8_mapping() {
    assert_eq!(ModuleType::from_u8(0), Some(ModuleType::Unused));
    assert_eq!(ModuleType::from_u8(1), Some(ModuleType::Routing));
    assert_eq!(ModuleType::from_u8(2), Some(ModuleType::Aggregation));
    assert_eq!(ModuleType::from_u8(3), Some(ModuleType::LegacyMultisig));
    assert_eq!(ModuleType::from_u8(4), Some(ModuleType::MerkleRootMultisig));
    assert_eq!(ModuleType::from_u8(5), Some(ModuleType::MessageIdMultisig));
    assert_eq!(ModuleType::from_u8(6), Some(ModuleType::Null));
    assert_eq!(ModuleType::from_u8(7), Some(ModuleType::CcipRead));
    assert_eq!(ModuleType::from_u8(8), None);
}
