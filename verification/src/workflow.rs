//! The states an etch request passes through and the events that move it.

use crate::commitment::COMMIT_CONFIRMATIONS;
use vstd::prelude::*;

verus! {

/// Where an etch request stands.
#[derive(Clone, Copy, Debug, PartialEq, Eq, Structural)]
pub enum WorkflowState {
    Validated,
    CommitBroadcast,
    RevealEligible,
    RevealBroadcast,
    Failed,
}

/// What happened outside since the last step.
#[derive(Clone, Copy, Debug, PartialEq, Eq)]
pub enum WorkflowEvent {
    /// The commit transaction was sent to the network.
    CommitSent,
    /// The commit transaction was seen with this many confirmations.
    Confirmations(u32),
    /// The reveal transaction was sent to the network.
    RevealSent,
    /// An error from which the request cannot recover.
    Fault,
}

/// What the caller is to do next.
#[derive(Clone, Copy, Debug, PartialEq, Eq, Structural)]
pub enum WorkflowAction {
    BroadcastCommit,
    AwaitConfirmations,
    BroadcastReveal,
    Finish,
    Halt,
}

/// The state that follows `state` on `event`. An event that does not belong
/// to the state leaves it unchanged.
pub open spec fn next_state(state: WorkflowState, event: WorkflowEvent) -> WorkflowState {
    match (state, event) {
        (WorkflowState::RevealBroadcast, _) => WorkflowState::RevealBroadcast,
        (WorkflowState::Failed, _) => WorkflowState::Failed,
        (_, WorkflowEvent::Fault) => WorkflowState::Failed,
        (WorkflowState::Validated, WorkflowEvent::CommitSent) => WorkflowState::CommitBroadcast,
        (WorkflowState::CommitBroadcast, WorkflowEvent::Confirmations(n)) => if n
            >= COMMIT_CONFIRMATIONS {
            WorkflowState::RevealEligible
        } else {
            WorkflowState::CommitBroadcast
        },
        (WorkflowState::RevealEligible, WorkflowEvent::RevealSent) => WorkflowState::RevealBroadcast,
        (s, _) => s,
    }
}

/// What is to be done in `state`.
pub open spec fn action_in(state: WorkflowState) -> WorkflowAction {
    match state {
        WorkflowState::Validated => WorkflowAction::BroadcastCommit,
        WorkflowState::CommitBroadcast => WorkflowAction::AwaitConfirmations,
        WorkflowState::RevealEligible => WorkflowAction::BroadcastReveal,
        WorkflowState::RevealBroadcast => WorkflowAction::Finish,
        WorkflowState::Failed => WorkflowAction::Halt,
    }
}

/// Moves a request on by one event, and says what to do in the state reached.
pub fn step(state: WorkflowState, event: WorkflowEvent) -> (r: (WorkflowState, WorkflowAction))
    ensures
        r.0 == next_state(state, event),
        r.1 == action_in(r.0),
{
    let next = match state {
        WorkflowState::RevealBroadcast => WorkflowState::RevealBroadcast,
        WorkflowState::Failed => WorkflowState::Failed,
        WorkflowState::Validated => match event {
            WorkflowEvent::Fault => WorkflowState::Failed,
            WorkflowEvent::CommitSent => WorkflowState::CommitBroadcast,
            _ => WorkflowState::Validated,
        },
        WorkflowState::CommitBroadcast => match event {
            WorkflowEvent::Fault => WorkflowState::Failed,
            WorkflowEvent::Confirmations(n) => if n >= COMMIT_CONFIRMATIONS {
                WorkflowState::RevealEligible
            } else {
                WorkflowState::CommitBroadcast
            },
            _ => WorkflowState::CommitBroadcast,
        },
        WorkflowState::RevealEligible => match event {
            WorkflowEvent::Fault => WorkflowState::Failed,
            WorkflowEvent::RevealSent => WorkflowState::RevealBroadcast,
            _ => WorkflowState::RevealEligible,
        },
    };
    (next, action(next))
}

/// What is to be done in `state`.
pub fn action(state: WorkflowState) -> (r: WorkflowAction)
    ensures
        r == action_in(state),
{
    match state {
        WorkflowState::Validated => WorkflowAction::BroadcastCommit,
        WorkflowState::CommitBroadcast => WorkflowAction::AwaitConfirmations,
        WorkflowState::RevealEligible => WorkflowAction::BroadcastReveal,
        WorkflowState::RevealBroadcast => WorkflowAction::Finish,
        WorkflowState::Failed => WorkflowAction::Halt,
    }
}

/// A request becomes eligible for its reveal only from a broadcast commit
/// seen with the required confirmations, and its reveal counts as broadcast
/// only once it was eligible and the reveal was sent. Neither a broadcast
/// reveal nor a failure is ever left.
pub proof fn lemma_transitions(state: WorkflowState, event: WorkflowEvent)
    ensures
        next_state(state, event) == WorkflowState::RevealEligible && state
            != WorkflowState::RevealEligible ==> state == WorkflowState::CommitBroadcast && (
        event matches WorkflowEvent::Confirmations(n) && n >= COMMIT_CONFIRMATIONS),
        next_state(state, event) == WorkflowState::RevealBroadcast && state
            != WorkflowState::RevealBroadcast ==> state == WorkflowState::RevealEligible && event
            == WorkflowEvent::RevealSent,
        next_state(state, event) == WorkflowState::CommitBroadcast && state
            != WorkflowState::CommitBroadcast ==> state == WorkflowState::Validated && event
            == WorkflowEvent::CommitSent,
        state == WorkflowState::RevealBroadcast ==> next_state(state, event) == state,
        state == WorkflowState::Failed ==> next_state(state, event) == state,
        next_state(state, event) == WorkflowState::Validated ==> state == WorkflowState::Validated,
{
}

} // verus!
