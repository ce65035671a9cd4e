use vstd::prelude::*;

use crate::errors::PQCError;

verus! {

/// The slowest block time the protocol accepts, in milliseconds.
pub const MIN_BLOCK_TIME_MS: u64 = 100;

/// Configuration bounding block timing and stake for a validator network.
///
/// Parameters are set at construction and replaced wholesale; `validate`
/// checks the protocol-critical bounds and may be called at any time.
#[derive(Debug, Clone, Copy, PartialEq, Eq, Structural)]
pub struct ConsensusParams {
    pub block_time_ms: u64,
    pub max_validators: u32,
    pub min_stake: u64,
    pub unbonding_period_days: u32,
}

/// The parameters a freshly created manager starts from.
pub open spec fn default_params() -> ConsensusParams {
    ConsensusParams {
        block_time_ms: 1000,
        max_validators: 100,
        min_stake: 1000000,
        unbonding_period_days: 21,
    }
}

impl ConsensusParams {
    /// Whether the parameters pass validation: the block time is at least
    /// the protocol minimum and the minimum stake is not zero.
    /// `max_validators` and `unbonding_period_days` carry no documented
    /// constraint and are not checked.
    pub open spec fn valid(&self) -> bool {
        &&& self.block_time_ms >= MIN_BLOCK_TIME_MS
        &&& self.min_stake != 0
    }

    /// Validate the parameters: `BlockTimeTooFast` when the block time is
    /// below the minimum, else `ZeroMinStake` when the minimum stake is
    /// zero, else success.
    pub fn validate(&self) -> (r: Result<(), PQCError>)
        ensures
            r is Ok <==> self.valid(),
            self.valid() ==> r == Ok::<(), PQCError>(()),
            self.block_time_ms < MIN_BLOCK_TIME_MS ==> r == Err::<(), PQCError>(
                PQCError::BlockTimeTooFast,
            ),
            self.block_time_ms >= MIN_BLOCK_TIME_MS && self.min_stake == 0 ==> r == Err::<
                (),
                PQCError,
            >(PQCError::ZeroMinStake),
    {
        if self.block_time_ms < MIN_BLOCK_TIME_MS {
            return Err(PQCError::BlockTimeTooFast);
        }
        if self.min_stake == 0 {
            return Err(PQCError::ZeroMinStake);
        }
        Ok(())
    }
}

} // verus!
