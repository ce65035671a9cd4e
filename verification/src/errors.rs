use vstd::prelude::*;

verus! {

/// The faults this library reports to its callers.
///
/// Absence of data (an unknown validator address) is never an error: lookups
/// resolve to `None` and verification of an unregistered signer resolves to
/// `false`, so forged or unknown peer claims cannot crash validation logic.
#[derive(Debug, Clone, Copy, PartialEq, Eq)]
pub enum PQCError {
    /// The registry already holds `max_validators` records.
    CapacityExceeded,
    /// `block_time_ms` is below the protocol minimum of 100 ms.
    BlockTimeTooFast,
    /// `min_stake` is zero.
    ZeroMinStake,
}

} // verus!
