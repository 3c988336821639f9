//! The two commands: checking a name, and preparing an etching up to the
//! point where transactions are built.

use crate::commitment::{commitment, commitment_spec};
use crate::directive::{
    Edict, EncodingError, EtchingDirective, EtchingTerms, SpacedName, ValidationError,
    MAX_DIVISIBILITY,
};
use crate::encoder::{encode, encode_spec};
use crate::schedule::NameSchedule;
use crate::store::EtchingStateStore;
use crate::validator::{reveal_height_spec, validate, validate_spec, ChainState, Network};
use vstd::prelude::*;

verus! {

/// The result of an etching: the name and the reveal transaction's id.
#[derive(Clone, Copy, Debug, PartialEq, Eq)]
pub struct Output {
    pub rune: SpacedName,
    pub transaction: [u8; 32],
}

/// Where the postage is paid, and on which network that address is valid.
#[derive(Clone, Debug, PartialEq, Eq)]
pub struct Destination {
    pub network: Network,
    pub script: Vec<u8>,
}

/// Why a name check failed.
#[derive(Clone, Copy, Debug, PartialEq, Eq)]
pub enum CheckError {
    NetworkMismatch { expected: Network, found: Network },
    Validation(ValidationError),
}

/// Why an etching could not be prepared.
#[derive(Clone, Copy, Debug, PartialEq, Eq)]
pub enum EtchError {
    Validation(ValidationError),
    Encoding(EncodingError),
}

/// The command that checks whether a name can be etched.
#[derive(Clone, Debug, PartialEq, Eq)]
pub struct BatchCheckRuneName {
    pub rune: SpacedName,
    pub rune_destination: Destination,
}

impl BatchCheckRuneName {
    /// Checks that the destination belongs to the ledger's network, then
    /// checks the name. Nothing is broadcast and nothing is recorded.
    pub fn run(
        &self,
        current_height: u32,
        pending: &EtchingStateStore,
        chain: &ChainState,
        schedule: &NameSchedule,
    ) -> (r: Result<u32, CheckError>)
        requires
            reveal_height_spec(current_height) <= u32::MAX,
        ensures
            r == if self.rune_destination.network != chain.network {
                Err::<u32, CheckError>(
                    (CheckError::NetworkMismatch {
                        expected: chain.network,
                        found: self.rune_destination.network,
                    }),
                )
            } else {
                match validate_spec(
                    self.rune.name,
                    current_height,
                    pending@.contains_key(self.rune.name),
                    *chain,
                    schedule.minimum_spec(reveal_height_spec(current_height) as u32),
                ) {
                    Ok(h) => Ok(h),
                    Err(e) => Err(CheckError::Validation(e)),
                }
            },
    {
        if self.rune_destination.network != chain.network {
            return Err(
                CheckError::NetworkMismatch {
                    expected: chain.network,
                    found: self.rune_destination.network,
                },
            );
        }
        match Self::check_etching_rune_name(
            pending,
            chain,
            schedule,
            current_height,
            self.rune.name,
        ) {
            Ok(h) => Ok(h),
            Err(e) => Err(CheckError::Validation(e)),
        }
    }

    /// Checks `rune` against the pending etchings, the ledger and the
    /// schedule, and returns the height at which it could be revealed.
    pub fn check_etching_rune_name(
        pending: &EtchingStateStore,
        chain: &ChainState,
        schedule: &NameSchedule,
        current_height: u32,
        rune: u128,
    ) -> (r: Result<u32, ValidationError>)
        requires
            reveal_height_spec(current_height) <= u32::MAX,
        ensures
            r == validate_spec(
                rune,
                current_height,
                pending@.contains_key(rune),
                *chain,
                schedule.minimum_spec(reveal_height_spec(current_height) as u32),
            ),
    {
        validate(rune, current_height, pending, chain, schedule)
    }
}

/// The command that etches a rune.
#[derive(Clone, Copy, Debug, PartialEq, Eq)]
pub struct Etch {
    pub divisibility: u8,
    pub fee_rate: u64,
    pub rune: SpacedName,
    pub supply: u128,
    pub symbol: char,
    pub premine: u128,
    pub amount: u128,
    pub cap: u128,
    pub height_start: u64,
    pub height_end: u64,
    pub offset_start: u64,
    pub offset_end: u64,
}

/// What is settled before any transaction is built.
#[derive(Clone, Debug, PartialEq, Eq)]
pub struct EtchPlan {
    pub directive: EtchingDirective,
    pub message: Vec<u8>,
    pub commitment: Vec<u8>,
    pub reveal_height: u32,
}

impl Etch {
    /// The directive that the command's arguments describe: terms with all
    /// four bounds, and the whole supply allocated to the first output.
    pub open spec fn directive_spec(&self) -> EtchingDirective {
        EtchingDirective {
            name: self.rune.name,
            divisibility: self.divisibility,
            premine: self.premine,
            terms: Some(
                EtchingTerms {
                    amount: self.amount,
                    cap: self.cap,
                    height_start: Some(self.height_start),
                    height_end: Some(self.height_end),
                    offset_start: Some(self.offset_start),
                    offset_end: Some(self.offset_end),
                },
            ),
            symbol: self.symbol,
            spacers: self.rune.spacers,
            edict: Edict { output: 0, amount: self.supply },
        }
    }

    /// What `prepare` returns, given whether an etching is pending for the
    /// name and the schedule's minimum at the reveal height.
    pub open spec fn prepare_spec(
        &self,
        current_height: u32,
        pending: bool,
        chain: ChainState,
        minimum: u128,
    ) -> Result<(EtchingDirective, Seq<u8>, Seq<u8>, u32), EtchError> {
        if self.divisibility > MAX_DIVISIBILITY {
            Err(
                EtchError::Validation(
                    ValidationError::DivisibilityOutOfRange {
                        divisibility: self.divisibility,
                        limit: MAX_DIVISIBILITY,
                    },
                ),
            )
        } else {
            match validate_spec(self.rune.name, current_height, pending, chain, minimum) {
                Err(e) => Err(EtchError::Validation(e)),
                Ok(h) => match encode_spec(self.directive_spec()) {
                    Err(e) => Err(EtchError::Encoding(e)),
                    Ok(m) => Ok((self.directive_spec(), m, commitment_spec(self.rune.name), h)),
                },
            }
        }
    }

    /// Builds the directive, refusing a divisibility above the limit. It
    /// needs nothing from the ledger.
    pub fn directive(&self) -> (r: Result<EtchingDirective, ValidationError>)
        ensures
            r == if self.divisibility <= MAX_DIVISIBILITY {
                Ok::<EtchingDirective, ValidationError>(self.directive_spec())
            } else {
                Err(
                    (ValidationError::DivisibilityOutOfRange {
                        divisibility: self.divisibility,
                        limit: MAX_DIVISIBILITY,
                    }),
                )
            },
    {
        EtchingDirective::new(
            self.rune,
            self.divisibility,
            self.premine,
            Some(
                EtchingTerms {
                    amount: self.amount,
                    cap: self.cap,
                    height_start: Some(self.height_start),
                    height_end: Some(self.height_end),
                    offset_start: Some(self.offset_start),
                    offset_end: Some(self.offset_end),
                },
            ),
            self.symbol,
            Edict { output: 0, amount: self.supply },
        )
    }

    /// Does everything that precedes the transactions: checks the
    /// divisibility, validates the name, encodes and measures the message and
    /// derives the commitment. The first failure is returned.
    pub fn prepare(
        &self,
        current_height: u32,
        pending: &EtchingStateStore,
        chain: &ChainState,
        schedule: &NameSchedule,
    ) -> (r: Result<EtchPlan, EtchError>)
        requires
            reveal_height_spec(current_height) <= u32::MAX,
        ensures
            match self.prepare_spec(
                current_height,
                pending@.contains_key(self.rune.name),
                *chain,
                schedule.minimum_spec(reveal_height_spec(current_height) as u32),
            ) {
                Err(e) => r == Err::<EtchPlan, EtchError>(e),
                Ok((d, m, c, h)) => r matches Ok(plan) && plan.directive == d && plan.message@ == m
                    && plan.commitment@ == c && plan.reveal_height == h,
            },
    {
        let directive = match self.directive() {
            Ok(d) => d,
            Err(e) => return Err(EtchError::Validation(e)),
        };
        let reveal_height: u32 = match validate(
            self.rune.name,
            current_height,
            pending,
            chain,
            schedule,
        ) {
            Ok(h) => h,
            Err(e) => return Err(EtchError::Validation(e)),
        };
        let message = match encode(&directive) {
            Ok(m) => m,
            Err(e) => return Err(EtchError::Encoding(e)),
        };
        Ok(EtchPlan { directive, message, commitment: commitment(self.rune.name), reveal_height })
    }

    /// The command's result once the reveal transaction was broadcast.
    pub fn output(&self, reveal_txid: [u8; 32]) -> (r: Output)
        ensures
            r == (Output { rune: self.rune, transaction: reveal_txid }),
    {
        Output { rune: self.rune, transaction: reveal_txid }
    }
}

} // verus!
