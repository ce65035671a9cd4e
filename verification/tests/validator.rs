use pqc_validator::errors::PQCError;
use pqc_validator::keys::KeyBundle;
use pqc_validator::manager::PQCValidatorManager;
use pqc_validator::params::ConsensusParams;
use pqc_validator::state::{PQCNetworkState, PQCValidatorConfig};

fn record(name: &str, address: &str, power: u64) -> PQCValidatorConfig {
    PQCValidatorConfig {
        name: name.to_string(),
        address: address.to_string(),
        voting_power: power,
        commission_rate_ppm: 50000,
        key_bundle: KeyBundle::generate().unwrap(),
    }
}

fn small_params(max_validators: u32) -> ConsensusParams {
    ConsensusParams {
        block_time_ms: 1000,
        max_validators,
        min_stake: 1,
        unbonding_period_days: 21,
    }
}

#[test]
fn test_pqc_validator_manager() {
    let manager = PQCValidatorManager::new(
        "test-validator".to_string(),
        "qsn1test...".to_string(),
    )
    .unwrap();

    assert_eq!(manager.get_config().name, "test-validator");
    assert_eq!(manager.get_config().voting_power, 1000000);
}

#[test]
fn test_add_then_lookup_returns_inserted_record() {
    let mut manager =
        PQCValidatorManager::new("alice".to_string(), "addr1".to_string()).unwrap();
    let bob = record("bob", "addr-bob", 42);
    manager.add_validator(bob.clone()).unwrap();

    let found = manager.get_network_state().lookup("addr-bob").unwrap();
    assert_eq!(found.name, "bob");
    assert_eq!(found.address, "addr-bob");
    assert_eq!(found.voting_power, 42);
    assert_eq!(found.commission_rate_ppm, 50000);
}

#[test]
fn test_capacity_exceeded_leaves_registry_unchanged() {
    let mut state = PQCNetworkState::new_state(small_params(1));
    state.add(record("a", "addr-a", 1)).unwrap();
    assert_eq!(state.validator_count(), 1);

    let refused = state.add(record("b", "addr-b", 2));
    assert_eq!(refused, Err(PQCError::CapacityExceeded));
    assert_eq!(state.validator_count(), 1);

    // A full registry refuses even a re-add of an address it already holds.
    let refused_readd = state.add(record("a", "addr-a", 3));
    assert_eq!(refused_readd, Err(PQCError::CapacityExceeded));
    assert_eq!(state.validator_count(), 1);
    assert_eq!(state.lookup("addr-a").unwrap().voting_power, 1);
}

#[test]
fn test_readd_overwrites_record() {
    let mut state = PQCNetworkState::new_state(small_params(10));
    state.add(record("a", "addr-a", 1)).unwrap();
    state.add(record("a-renamed", "addr-a", 7)).unwrap();
    assert_eq!(state.validator_count(), 1);
    let found = state.lookup("addr-a").unwrap();
    assert_eq!(found.name, "a-renamed");
    assert_eq!(found.voting_power, 7);
}

#[test]
fn test_remove_absent_is_noop() {
    let mut state = PQCNetworkState::new_state(small_params(10));
    state.add(record("a", "addr-a", 1)).unwrap();

    state.remove("never-added").unwrap();
    assert_eq!(state.validator_count(), 1);

    state.remove("addr-a").unwrap();
    assert_eq!(state.validator_count(), 0);

    // Idempotent: removing again still succeeds.
    state.remove("addr-a").unwrap();
    assert_eq!(state.validator_count(), 0);
}

#[test]
fn test_update_voting_power() {
    let mut manager =
        PQCValidatorManager::new("alice".to_string(), "addr1".to_string()).unwrap();
    manager.add_validator(record("bob", "addr-bob", 42)).unwrap();

    manager.update_voting_power("addr-bob", 99).unwrap();
    assert_eq!(
        manager.get_network_state().lookup("addr-bob").unwrap().voting_power,
        99
    );
    assert_eq!(
        manager.get_network_state().lookup("addr-bob").unwrap().name,
        "bob"
    );

    // Unknown address: a successful no-op.
    manager.update_voting_power("never-added", 5).unwrap();
    assert_eq!(manager.get_network_state().validator_count(), 1);
}

#[test]
fn test_sign_then_verify_own_block() {
    let mut manager =
        PQCValidatorManager::new("alice".to_string(), "addr1".to_string()).unwrap();
    let own_record = manager.get_config().clone();
    manager.add_validator(own_record).unwrap();

    let signature = manager.sign_block_proposal(b"block payload").unwrap();
    let verified = manager
        .verify_block_signature(b"block payload", &signature, "addr1")
        .unwrap();
    assert!(verified);
}

#[test]
fn test_verify_unknown_address_is_false_not_error() {
    let manager =
        PQCValidatorManager::new("alice".to_string(), "addr1".to_string()).unwrap();
    let signature = manager.sign_block_proposal(b"block payload").unwrap();

    // The manager's own record was never added to the registry.
    let result = manager.verify_block_signature(b"block payload", &signature, "addr1");
    assert_eq!(result, Ok(false));
    let result = manager.verify_block_signature(b"block payload", &signature, "nobody");
    assert_eq!(result, Ok(false));
}

#[test]
fn test_validate_consensus_params() {
    let too_fast = ConsensusParams {
        block_time_ms: 50,
        max_validators: 100,
        min_stake: 1000000,
        unbonding_period_days: 21,
    };
    assert_eq!(too_fast.validate(), Err(PQCError::BlockTimeTooFast));

    let zero_stake = ConsensusParams {
        block_time_ms: 1000,
        max_validators: 100,
        min_stake: 0,
        unbonding_period_days: 21,
    };
    assert_eq!(zero_stake.validate(), Err(PQCError::ZeroMinStake));

    let fine = ConsensusParams {
        block_time_ms: 1000,
        max_validators: 100,
        min_stake: 1,
        unbonding_period_days: 21,
    };
    assert_eq!(fine.validate(), Ok(()));

    // A fresh manager's defaults validate.
    let manager =
        PQCValidatorManager::new("alice".to_string(), "addr1".to_string()).unwrap();
    assert_eq!(manager.validate_consensus_params(), Ok(()));
}

#[test]
fn test_increment_height_counts_increments() {
    let mut manager =
        PQCValidatorManager::new("alice".to_string(), "addr1".to_string()).unwrap();
    assert_eq!(manager.get_network_state().current_height, 0);
    let mut i: u32 = 0;
    while i < 5 {
        manager.increment_height();
        i += 1;
    }
    assert_eq!(manager.get_network_state().current_height, 5);
}

#[test]
fn test_regenerate_keys_keeps_identity() {
    let mut manager =
        PQCValidatorManager::new("alice".to_string(), "addr1".to_string()).unwrap();
    manager.generate_validator_keys().unwrap();
    assert_eq!(manager.get_config().name, "alice");
    assert_eq!(manager.get_config().address, "addr1");
    assert_eq!(manager.get_config().voting_power, 1000000);
}
