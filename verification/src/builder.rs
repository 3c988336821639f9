//! The unsigned reveal transaction: one input that spends the funding
//! outpoint and carries the commitment, one output that carries the message,
//! and one that pays the postage to the destination.

use crate::commitment::{commitment, commitment_spec, reveal_permitted, COMMIT_CONFIRMATIONS};
use crate::directive::{EncodingError, EtchingDirective};
use crate::encoder::{encode, encode_spec};
use crate::store::PendingEtching;
use vstd::prelude::*;

verus! {

/// The value of the output that pays the destination.
pub const TARGET_POSTAGE: u64 = 10_000;

/// The version of the reveal transaction.
pub const TRANSACTION_VERSION: u32 = 2;

/// An output of an earlier transaction.
#[derive(Clone, Copy, Debug, PartialEq, Eq)]
pub struct OutPoint {
    pub txid: [u8; 32],
    pub vout: u32,
}

/// The input of the reveal transaction.
#[derive(Clone, Debug, PartialEq, Eq)]
pub struct TxInput {
    pub previous_output: OutPoint,
    pub witness: Vec<u8>,
}

/// An output of the reveal transaction.
#[derive(Clone, Debug, PartialEq, Eq)]
pub struct TxOutput {
    pub value: u64,
    pub script: Vec<u8>,
}

/// The reveal transaction before it is funded and signed.
#[derive(Clone, Debug, PartialEq, Eq)]
pub struct RevealTransaction {
    pub version: u32,
    pub lock_time: u32,
    pub input: TxInput,
    pub data_output: TxOutput,
    pub postage_output: TxOutput,
    pub fee_rate: u64,
}

/// Why funding failed.
#[derive(Clone, Copy, Debug, PartialEq, Eq)]
pub enum FundingError {
    /// Competing reservations on the unspent outputs could not be excluded.
    LockFailure,
    /// Reported by whoever funds the transaction.
    InsufficientFunds,
}

/// Why no reveal transaction was built.
#[derive(Clone, Copy, Debug, PartialEq, Eq)]
pub enum BuildError {
    Encoding(EncodingError),
    Funding(FundingError),
}

/// Why a pending etching was not revealed.
#[derive(Clone, Copy, Debug, PartialEq, Eq)]
pub enum RevealError {
    /// The commit was seen with fewer confirmations than the reveal requires.
    NotConfirmed { confirmations: u32, required: u32 },
    Build(BuildError),
}

impl RevealTransaction {
    /// The transaction has exactly the fields that a reveal of `message`
    /// under `commitment` has.
    pub open spec fn reveals(
        &self,
        message: Seq<u8>,
        commitment: Seq<u8>,
        funding: OutPoint,
        fee_rate: u64,
        destination: Seq<u8>,
    ) -> bool {
        &&& self.version == TRANSACTION_VERSION
        &&& self.lock_time == 0
        &&& self.input.previous_output == funding
        &&& self.input.witness@ == commitment
        &&& self.data_output.value == 0
        &&& self.data_output.script@ == message
        &&& self.postage_output.value == TARGET_POSTAGE
        &&& self.postage_output.script@ == destination
        &&& self.fee_rate == fee_rate
    }
}

/// Assembles the reveal transaction. The message is encoded and measured
/// first; then the outcome of excluding competing reservations decides.
pub fn build_reveal(
    directive: &EtchingDirective,
    commitment: Vec<u8>,
    funding: OutPoint,
    fee_rate: u64,
    destination: Vec<u8>,
    reservations_excluded: bool,
) -> (r: Result<RevealTransaction, BuildError>)
    ensures
        match encode_spec(*directive) {
            Err(e) => r == Err::<RevealTransaction, BuildError>(BuildError::Encoding(e)),
            Ok(message) => if reservations_excluded {
                r matches Ok(tx) && tx.reveals(
                    message,
                    commitment@,
                    funding,
                    fee_rate,
                    destination@,
                )
            } else {
                r == Err::<RevealTransaction, BuildError>(
                    BuildError::Funding(FundingError::LockFailure),
                )
            },
        },
{
    let message = match encode(directive) {
        Ok(m) => m,
        Err(e) => return Err(BuildError::Encoding(e)),
    };
    if !reservations_excluded {
        return Err(BuildError::Funding(FundingError::LockFailure));
    }
    Ok(
        RevealTransaction {
            version: TRANSACTION_VERSION,
            lock_time: 0,
            input: TxInput { previous_output: funding, witness: commitment },
            data_output: TxOutput { value: 0, script: message },
            postage_output: TxOutput { value: TARGET_POSTAGE, script: destination },
            fee_rate,
        },
    )
}

/// Assembles the reveal of a pending etching whose commit was seen with
/// `confirmations` confirmations. With fewer than the required number nothing
/// is built, whatever the other arguments are; with enough, the transaction
/// carries the commitment to the recorded name.
pub fn reveal_pending(
    record: &PendingEtching,
    confirmations: u32,
    funding: OutPoint,
    fee_rate: u64,
    destination: Vec<u8>,
    reservations_excluded: bool,
) -> (r: Result<RevealTransaction, RevealError>)
    ensures
        confirmations < COMMIT_CONFIRMATIONS ==> r == Err::<RevealTransaction, RevealError>(
            (RevealError::NotConfirmed { confirmations, required: COMMIT_CONFIRMATIONS }),
        ),
        confirmations >= COMMIT_CONFIRMATIONS ==> match encode_spec(record.directive) {
            Err(e) => r == Err::<RevealTransaction, RevealError>(
                RevealError::Build(BuildError::Encoding(e)),
            ),
            Ok(message) => if reservations_excluded {
                r matches Ok(tx) && tx.reveals(
                    message,
                    commitment_spec(record.directive.name),
                    funding,
                    fee_rate,
                    destination@,
                )
            } else {
                r == Err::<RevealTransaction, RevealError>(
                    RevealError::Build(BuildError::Funding(FundingError::LockFailure)),
                )
            },
        },
{
    if !reveal_permitted(confirmations) {
        return Err(
            RevealError::NotConfirmed { confirmations, required: COMMIT_CONFIRMATIONS },
        );
    }
    match build_reveal(
        &record.directive,
        commitment(record.directive.name),
        funding,
        fee_rate,
        destination,
        reservations_excluded,
    ) {
        Ok(tx) => Ok(tx),
        Err(e) => Err(RevealError::Build(e)),
    }
}

} // verus!
