use op_eth_api::config::{
    calculate_block_gas_limit, EthereumBuilderConfig, GAS_LIMIT_BOUND_DIVISOR,
};

/// The bound around a parent's gas limit, computed independently.
fn bound(parent: u64) -> (u128, u128) {
    let delta = (parent / 1024).saturating_sub(1) as u128;
    (parent as u128 - delta, parent as u128 + delta)
}

#[test]
fn bound_divisor_is_1024() {
    assert_eq!(GAS_LIMIT_BOUND_DIVISOR, 1024);
}

#[test]
fn desired_equal_to_parent_is_kept() {
    assert_eq!(calculate_block_gas_limit(30_000_000, 30_000_000), 30_000_000);
    let config = EthereumBuilderConfig::new().with_gas_limit(30_000_000);
    assert_eq!(config.gas_limit(30_000_000), 30_000_000);
}

#[test]
fn delta_of_thirty_million_is_29_295() {
    // The largest and the smallest desired limit land on the two ends of the bound.
    let highest = calculate_block_gas_limit(30_000_000, u64::MAX);
    let lowest = calculate_block_gas_limit(30_000_000, 0);
    assert_eq!(highest - 30_000_000, 29_295);
    assert_eq!(30_000_000 - lowest, 29_295);
}

#[test]
fn desired_above_bound_is_clamped_to_max() {
    assert_eq!(calculate_block_gas_limit(30_000_000, 40_000_000), 30_029_295);
    let config = EthereumBuilderConfig::new().with_gas_limit(40_000_000);
    assert_eq!(config.gas_limit(30_000_000), 30_029_295);
}

#[test]
fn desired_below_bound_is_clamped_to_min() {
    assert_eq!(calculate_block_gas_limit(30_000_000, 1), 29_970_705);
    let config = EthereumBuilderConfig::new().with_gas_limit(1);
    assert_eq!(config.gas_limit(30_000_000), 29_970_705);
}

#[test]
fn result_lies_within_bound() {
    let parents = [1u64, 2, 1023, 1024, 1025, 2047, 2048, 5_000, 30_000_000, u64::MAX / 2, u64::MAX];
    let desired = [0u64, 1, 1000, 1024, 2049, 29_999_999, 30_000_001, u64::MAX / 2 + 7, u64::MAX];
    for parent in parents {
        let (min, max) = bound(parent);
        for want in desired {
            let limit = calculate_block_gas_limit(parent, want) as u128;
            assert!(min <= limit && limit <= max, "parent {parent} desired {want} gave {limit}");
        }
    }
}

#[test]
fn desired_within_bound_is_returned_unchanged() {
    for parent in [1u64, 1024, 2048, 4096, 30_000_000, 1 << 40] {
        let (min, max) = bound(parent);
        for want in [min as u64, parent, max as u64, (min as u64 + max as u64) / 2] {
            assert_eq!(calculate_block_gas_limit(parent, want), want);
        }
    }
}

#[test]
fn applying_the_rule_twice_changes_nothing() {
    for parent in [0u64, 1, 2048, 30_000_000, u64::MAX] {
        for want in [0u64, 1, 30_000_000, u64::MAX] {
            let once = calculate_block_gas_limit(parent, want);
            assert_eq!(calculate_block_gas_limit(parent, once), once);
        }
    }
}

#[test]
fn raising_desired_past_upper_bound_changes_nothing() {
    let at_bound = calculate_block_gas_limit(30_000_000, 30_029_295);
    assert_eq!(at_bound, 30_029_295);
    for want in [30_029_296u64, 31_000_000, 40_000_000, 1 << 50, u64::MAX] {
        assert_eq!(calculate_block_gas_limit(30_000_000, want), at_bound);
    }
}

#[test]
fn result_never_falls_when_desired_rises() {
    let mut last = 0u64;
    for want in [0u64, 1, 29_970_704, 29_970_705, 29_970_706, 30_000_000, 30_029_295, 30_029_296, u64::MAX] {
        let limit = calculate_block_gas_limit(30_000_000, want);
        assert!(last <= limit);
        last = limit;
    }
}

#[test]
fn small_parents_allow_no_change() {
    // Below twice the divisor the delta is zero, so the parent's limit is kept.
    for parent in [0u64, 1, 1023, 1024, 2047] {
        assert_eq!(calculate_block_gas_limit(parent, 0), parent);
        assert_eq!(calculate_block_gas_limit(parent, u64::MAX), parent);
    }
    assert_eq!(calculate_block_gas_limit(2048, 0), 2047);
    assert_eq!(calculate_block_gas_limit(2048, u64::MAX), 2049);
}

#[test]
fn largest_parent_does_not_overflow() {
    let delta = u64::MAX / 1024 - 1;
    assert_eq!(calculate_block_gas_limit(u64::MAX, 0), u64::MAX - delta);
    // The upper bound lies above every u64, so the largest desired limit is kept.
    assert_eq!(calculate_block_gas_limit(u64::MAX, u64::MAX), u64::MAX);
    assert_eq!(calculate_block_gas_limit(u64::MAX, u64::MAX - 1), u64::MAX - 1);
}

#[test]
fn new_config_desires_thirty_million_and_awaits_payload() {
    let config = EthereumBuilderConfig::new();
    assert_eq!(config.desired_gas_limit, 30_000_000);
    assert!(config.await_payload_on_missing);
    assert_eq!(config.desired_gas_limit, alloy_eips::eip1559::ETHEREUM_BLOCK_GAS_LIMIT_30M);
    assert_eq!(EthereumBuilderConfig::default(), config);
}

#[test]
fn with_gas_limit_sets_only_the_gas_limit() {
    let config = EthereumBuilderConfig::new().with_gas_limit(36_000_000);
    assert_eq!(config.desired_gas_limit, 36_000_000);
    assert!(config.await_payload_on_missing);
    assert_eq!(
        config,
        EthereumBuilderConfig { desired_gas_limit: 36_000_000, await_payload_on_missing: true }
    );
}

#[test]
fn with_await_payload_on_missing_sets_only_the_flag() {
    let config = EthereumBuilderConfig::new().with_gas_limit(7).with_await_payload_on_missing(false);
    assert_eq!(config.desired_gas_limit, 7);
    assert!(!config.await_payload_on_missing);
    let again = config.clone().with_await_payload_on_missing(true);
    assert!(again.await_payload_on_missing);
    assert_ne!(again, config);
}
