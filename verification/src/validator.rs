//! The rules a name must pass before it may be etched.

use crate::commitment::COMMIT_CONFIRMATIONS;
use crate::directive::ValidationError;
use crate::schedule::NameSchedule;
use crate::store::EtchingStateStore;
use vstd::prelude::*;

verus! {

/// The first reserved name: this name and all above it cannot be etched.
pub const RESERVED: u128 = 6402364363415443603228541259936211926;

/// The networks a ledger may belong to.
#[derive(Clone, Copy, Debug, PartialEq, Eq, Structural)]
pub enum Network {
    Bitcoin,
    Testnet,
    Signet,
    Regtest,
}

/// What the ledger reports about a name at the time of the request.
#[derive(Clone, Copy, Debug, PartialEq, Eq)]
pub struct ChainState {
    pub network: Network,
    /// Whether the index of names is enabled.
    pub index_enabled: bool,
    /// Whether the name already resolves to an etching on the ledger. It
    /// counts only where the index is enabled.
    pub name_resolves: bool,
}

/// Whether `name` lies in the reserved range.
pub open spec fn is_reserved(name: u128) -> bool {
    name >= RESERVED
}

/// The height at which a commit made at `current_height` can be revealed.
pub open spec fn reveal_height_spec(current_height: u32) -> int {
    current_height + COMMIT_CONFIRMATIONS
}

/// The outcome of validation: the rules in their order, the first that fails
/// decides, and a name that passes them all gets its reveal height.
pub open spec fn validate_spec(
    name: u128,
    current_height: u32,
    pending: bool,
    chain: ChainState,
    minimum: u128,
) -> Result<u32, ValidationError> {
    if pending {
        Err(ValidationError::DuplicatePending { name })
    } else if !chain.index_enabled {
        Err(ValidationError::IndexUnavailable)
    } else if chain.name_resolves {
        Err(ValidationError::AlreadyEtched { name })
    } else if is_reserved(name) {
        Err(ValidationError::ReservedName { name })
    } else if name < minimum {
        Err(
            ValidationError::NameTooShort {
                name,
                minimum,
                height: reveal_height_spec(current_height) as u32,
            },
        )
    } else {
        Ok(reveal_height_spec(current_height) as u32)
    }
}

/// Checks `name` against the pending etchings, the ledger and the schedule.
/// The store is only read.
pub fn validate(
    name: u128,
    current_height: u32,
    pending: &EtchingStateStore,
    chain: &ChainState,
    schedule: &NameSchedule,
) -> (r: Result<u32, ValidationError>)
    requires
        reveal_height_spec(current_height) <= u32::MAX,
    ensures
        r == validate_spec(
            name,
            current_height,
            pending@.contains_key(name),
            *chain,
            schedule.minimum_spec(reveal_height_spec(current_height) as u32),
        ),
{
    if pending.contains(name) {
        return Err(ValidationError::DuplicatePending { name });
    }
    if !chain.index_enabled {
        return Err(ValidationError::IndexUnavailable);
    }
    if chain.name_resolves {
        return Err(ValidationError::AlreadyEtched { name });
    }
    if name >= RESERVED {
        return Err(ValidationError::ReservedName { name });
    }
    let reveal_height: u32 = current_height + COMMIT_CONFIRMATIONS;
    let minimum: u128 = schedule.minimum_name_at_height(reveal_height);
    if name < minimum {
        return Err(ValidationError::NameTooShort { name, minimum, height: reveal_height });
    }
    Ok(reveal_height)
}

/// While an etching is pending for a name, validation of that name fails as a
/// duplicate, whatever the height, the ledger and the schedule say.
pub proof fn lemma_pending_is_duplicate(
    name: u128,
    current_height: u32,
    chain: ChainState,
    minimum: u128,
)
    ensures
        validate_spec(name, current_height, true, chain, minimum) == Err::<u32, ValidationError>(
            (ValidationError::DuplicatePending { name }),
        ),
{
}

/// A name that passes at some height passes at every later height too, all
/// else being equal: names only ever become available.
pub proof fn lemma_valid_stays_valid(
    name: u128,
    low: u32,
    high: u32,
    pending: bool,
    chain: ChainState,
    schedule: &NameSchedule,
)
    requires
        schedule.wf(),
        low <= high,
        reveal_height_spec(high) <= u32::MAX,
        validate_spec(
            name,
            low,
            pending,
            chain,
            schedule.minimum_spec(reveal_height_spec(low) as u32),
        ) is Ok,
    ensures
        validate_spec(
            name,
            high,
            pending,
            chain,
            schedule.minimum_spec(reveal_height_spec(high) as u32),
        ) is Ok,
{
    crate::schedule::lemma_minimum_non_increasing(
        schedule,
        reveal_height_spec(low) as u32,
        reveal_height_spec(high) as u32,
    );
}

} // verus!
