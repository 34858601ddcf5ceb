use aetherium::test_utils::{MockAggregationIsm, MockInterchainSecurityModule, MockRoutingIsm};
use aetherium::{AetheriumMessage, ModuleType, H256, U256};

/// Just to test mock structs work
#[test]
fn mock_ism_test_mock_works() {
    let mut mock_ism = MockInterchainSecurityModule::new(H256::zero());
    mock_ism
        .responses
        .module_type
        .push(Ok(ModuleType::Routing));
    mock_ism
        .responses
        .module_type
        .push(Ok(ModuleType::Aggregation));

    let module_type = mock_ism.module_type().expect("No response");
    assert_eq!(module_type, ModuleType::Routing);

    let module_type = mock_ism.module_type().expect("No response");
    assert_eq!(module_type, ModuleType::Aggregation);
}

/// Just to test mock structs work
#[test]
fn mock_routing_ism_test_mock_works() {
    let mut mock_ism = MockRoutingIsm::default();
    mock_ism.responses.route.push(Ok(H256::zero()));
    mock_ism.responses.route.push(Ok(H256::from_low_u64_le(10)));

    let message = AetheriumMessage::default();
    let module_type = mock_ism.route(&message).expect("No response");
    assert_eq!(module_type, H256::zero());

    let module_type = mock_ism.route(&message).expect("No response");
    assert_eq!(module_type, H256::from_low_u64_le(10));
}

#[test]
fn mock_aggregation_ism_works() {
    let mut mock_ism = MockAggregationIsm::default();
    mock_ism
        .responses
        .modules_and_threshold
        .push(Ok((vec![H256::from_low_u64_be(1)], 1)));

    let message = AetheriumMessage::default();
    let (modules, threshold) = mock_ism
        .modules_and_threshold(&message)
        .expect("No response");
    assert_eq!(modules, vec![H256::from_low_u64_be(1)]);
    assert_eq!(threshold, 1);
}

#[test]
fn mock_ism_dry_run_queue() {
    let mut mock_ism = MockInterchainSecurityModule::new(H256::from_low_u64_be(9));
    mock_ism.responses.dry_run_verify.push(Ok(Some(U256::zero())));
    let message = AetheriumMessage::default();
    let gas = mock_ism
        .dry_run_verify(&message, &[1, 2, 3])
        .expect("No response");
    assert_eq!(gas, Some(U256::zero()));
    assert_eq!(mock_ism.address, H256::from_low_u64_be(9));
}
