use vstd::prelude::*;

use crate::errors::PQCError;
use crate::keys::{generated_key, sign_bytes, KeyBundle};
use crate::params::{default_params, ConsensusParams, MIN_BLOCK_TIME_MS};
use crate::state::{
    add_effect, contains_addr, increment_effect, remove_effect, spec_registry_verify,
    update_power_effect, PQCNetworkState, PQCValidatorConfig,
};

verus! {

/// The voting power a freshly created validator starts with.
pub const DEFAULT_VOTING_POWER: u64 = 1000000;

/// The commission a freshly created validator starts with, in parts per
/// million: a commission of 0.05.
pub const DEFAULT_COMMISSION_RATE_PPM: u64 = 50000;

/// One node's validator component: the node's own identity and key bundle,
/// plus its snapshot of the network state. The manager signs outgoing block
/// proposals with its own bundle and checks incoming ones against the
/// registry it holds.
pub struct PQCValidatorManager {
    pub config: PQCValidatorConfig,
    pub network_state: PQCNetworkState,
}

impl PQCValidatorManager {
    /// The manager's invariant: its state is well formed and its own record
    /// meets the record invariant.
    pub open spec fn wf(&self) -> bool {
        &&& self.network_state.wf()
        &&& self.config.valid()
    }

    /// Create a manager for the validator `name`/`address`, with a fresh key
    /// bundle, an empty registry at height zero, and the default consensus
    /// parameters.
    pub fn new(name: String, address: String) -> (r: Result<PQCValidatorManager, PQCError>)
        ensures
            r is Ok,
            r->Ok_0.wf(),
            r->Ok_0.config.name == name,
            r->Ok_0.config.address == address,
            r->Ok_0.config.voting_power == DEFAULT_VOTING_POWER,
            r->Ok_0.config.commission_rate_ppm == DEFAULT_COMMISSION_RATE_PPM,
            r->Ok_0.config.key_bundle.key() == generated_key(),
            r->Ok_0.network_state.current_height == 0,
            r->Ok_0.network_state.validator_seq() == Seq::<PQCValidatorConfig>::empty(),
            r->Ok_0.network_state.consensus_params == default_params(),
    {
        let key_bundle = match KeyBundle::generate() {
            Ok(kb) => kb,
            Err(e) => {
                return Err(e);
            },
        };
        let config = PQCValidatorConfig {
            name,
            address,
            voting_power: DEFAULT_VOTING_POWER,
            commission_rate_ppm: DEFAULT_COMMISSION_RATE_PPM,
            key_bundle,
        };
        let network_state = PQCNetworkState::new_state(
            ConsensusParams {
                block_time_ms: 1000,
                max_validators: 100,
                min_stake: 1000000,
                unbonding_period_days: 21,
            },
        );
        Ok(PQCValidatorManager { config, network_state })
    }

    /// Replace the node's own key bundle with a freshly generated one.
    /// Signatures issued with the old bundle no longer verify against the
    /// node's new key material, though they remain checkable against any
    /// separately registered copy of the old record.
    pub fn generate_validator_keys(&mut self) -> (r: Result<(), PQCError>)
        ensures
            r == Ok::<(), PQCError>(()),
            final(self).config.key_bundle.key() == generated_key(),
            final(self).config.name == old(self).config.name,
            final(self).config.address == old(self).config.address,
            final(self).config.voting_power == old(self).config.voting_power,
            final(self).config.commission_rate_ppm == old(self).config.commission_rate_ppm,
            final(self).network_state == old(self).network_state,
    {
        let key_bundle = match KeyBundle::generate() {
            Ok(kb) => kb,
            Err(e) => {
                return Err(e);
            },
        };
        self.config.key_bundle = key_bundle;
        Ok(())
    }

    /// Sign a block proposal with the node's own key bundle.
    pub fn sign_block_proposal(&self, block_data: &[u8]) -> (r: Result<Vec<u8>, PQCError>)
        ensures
            r is Ok,
            r->Ok_0@ == sign_bytes(self.config.key_bundle.key(), block_data@),
    {
        self.config.key_bundle.sign(block_data)
    }

    /// Check a claimed block signature against the registered record of
    /// `validator_address`. An address that was never added to the registry
    /// resolves to `Ok(false)`, not to an error: an unknown signer is "not
    /// verified", never a fault.
    pub fn verify_block_signature(
        &self,
        block_data: &[u8],
        signature: &[u8],
        validator_address: &str,
    ) -> (r: Result<bool, PQCError>)
        requires
            self.wf(),
        ensures
            r is Ok,
            r->Ok_0 == spec_registry_verify(
                self.network_state.validator_seq(),
                block_data@,
                signature@,
                validator_address@,
            ),
            !contains_addr(self.network_state.validator_seq(), validator_address@) ==> r->Ok_0
                == false,
    {
        match self.network_state.lookup(validator_address) {
            Some(validator) => validator.key_bundle.verify(block_data, signature),
            None => Ok(false),
        }
    }

    /// Insert `validator` into the registry (see [`PQCNetworkState::add`]):
    /// `CapacityExceeded` when the registry is full, otherwise an insert
    /// that overwrites any record already carrying the same address.
    pub fn add_validator(&mut self, validator: PQCValidatorConfig) -> (r: Result<(), PQCError>)
        requires
            old(self).wf(),
            validator.valid(),
        ensures
            final(self).wf(),
            final(self).config == old(self).config,
            final(self).network_state.current_height == old(self).network_state.current_height,
            final(self).network_state.consensus_params == old(
                self,
            ).network_state.consensus_params,
            old(self).network_state.at_capacity() ==> r == Err::<(), PQCError>(
                PQCError::CapacityExceeded,
            ) && *final(self) == *old(self),
            !old(self).network_state.at_capacity() ==> r == Ok::<(), PQCError>(()) && add_effect(
                old(self).network_state.validator_seq(),
                final(self).network_state.validator_seq(),
                validator,
            ),
    {
        self.network_state.add(validator)
    }

    /// Remove the record carrying `address` from the registry. Idempotent:
    /// an absent address is a successful no-op.
    pub fn remove_validator(&mut self, address: &str) -> (r: Result<(), PQCError>)
        requires
            old(self).wf(),
        ensures
            r == Ok::<(), PQCError>(()),
            final(self).wf(),
            final(self).config == old(self).config,
            final(self).network_state.current_height == old(self).network_state.current_height,
            final(self).network_state.consensus_params == old(
                self,
            ).network_state.consensus_params,
            remove_effect(
                old(self).network_state.validator_seq(),
                final(self).network_state.validator_seq(),
                address@,
            ),
            !contains_addr(old(self).network_state.validator_seq(), address@) ==> *final(self)
                == *old(self),
    {
        self.network_state.remove(address)
    }

    /// Set the voting power of the record carrying `address`; a no-op when
    /// the address is unknown. The new power is not checked against
    /// `min_stake` — that is the caller's responsibility.
    pub fn update_voting_power(&mut self, address: &str, new_power: u64) -> (r: Result<
        (),
        PQCError,
    >)
        requires
            old(self).wf(),
        ensures
            r == Ok::<(), PQCError>(()),
            final(self).wf(),
            final(self).config == old(self).config,
            final(self).network_state.current_height == old(self).network_state.current_height,
            final(self).network_state.consensus_params == old(
                self,
            ).network_state.consensus_params,
            contains_addr(old(self).network_state.validator_seq(), address@)
                ==> update_power_effect(
                old(self).network_state.validator_seq(),
                final(self).network_state.validator_seq(),
                address@,
                new_power,
            ),
            !contains_addr(old(self).network_state.validator_seq(), address@) ==> *final(self)
                == *old(self),
    {
        self.network_state.update_voting_power(address, new_power)
    }

    /// The node's view of the network state.
    pub fn get_network_state(&self) -> (r: &PQCNetworkState)
        ensures
            *r == self.network_state,
    {
        &self.network_state
    }

    /// The node's own validator record.
    pub fn get_config(&self) -> (r: &PQCValidatorConfig)
        ensures
            *r == self.config,
    {
        &self.config
    }

    /// Advance the chain height by one block. The height never decreases;
    /// callers keep it below `u64::MAX`, which at one block per millisecond
    /// is not reached within the lifetime of a chain.
    pub fn increment_height(&mut self)
        requires
            old(self).network_state.current_height < u64::MAX,
        ensures
            increment_effect(old(self).network_state, final(self).network_state),
            final(self).config == old(self).config,
    {
        self.network_state.current_height = self.network_state.current_height + 1;
    }

    /// Validate the consensus parameters this manager holds, exactly as
    /// [`ConsensusParams::validate`] does.
    pub fn validate_consensus_params(&self) -> (r: Result<(), PQCError>)
        ensures
            r is Ok <==> self.network_state.consensus_params.valid(),
            self.network_state.consensus_params.valid() ==> r == Ok::<(), PQCError>(()),
            self.network_state.consensus_params.block_time_ms < MIN_BLOCK_TIME_MS ==> r == Err::<
                (),
                PQCError,
            >(PQCError::BlockTimeTooFast),
            self.network_state.consensus_params.block_time_ms >= MIN_BLOCK_TIME_MS
                && self.network_state.consensus_params.min_stake == 0 ==> r == Err::<(), PQCError>(
                PQCError::ZeroMinStake,
            ),
    {
        self.network_state.consensus_params.validate()
    }
}

} // verus!
