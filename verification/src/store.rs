//! Pending etchings, one per name at most, kept from the broadcast of the
//! commit until the reveal is broadcast or the etching is abandoned.

use crate::directive::{EtchingDirective, ValidationError};
use crate::workflow::{action, step, WorkflowAction, WorkflowEvent, WorkflowState};
use crate::workflow::{action_in, next_state};
use std::collections::HashMap;
use vstd::prelude::*;

verus! {

/// What is remembered of an etching whose commit was broadcast.
#[derive(Clone, Copy, Debug, PartialEq, Eq)]
pub struct PendingEtching {
    pub directive: EtchingDirective,
    pub commit_txid: [u8; 32],
    pub commit_height: u32,
    pub state: WorkflowState,
}

/// What is wrong with the store's contents.
#[derive(Clone, Copy, Debug, PartialEq, Eq)]
pub enum StateError {
    CorruptPendingRecord { name: u128 },
}

/// The pending etchings by name.
pub struct EtchingStateStore {
    records: HashMap<u128, PendingEtching>,
}

impl View for EtchingStateStore {
    type V = Map<u128, PendingEtching>;

    closed spec fn view(&self) -> Map<u128, PendingEtching> {
        self.records@
    }
}

/// Two records belong to the same request when they agree in all but the state.
pub open spec fn same_request(a: PendingEtching, b: PendingEtching) -> bool {
    a.directive == b.directive && a.commit_txid@ == b.commit_txid@ && a.commit_height
        == b.commit_height
}

/// What the store holds after `record` was offered under `name`, and what the
/// caller is told.
pub open spec fn put_spec(
    before: Map<u128, PendingEtching>,
    name: u128,
    record: PendingEtching,
) -> (Map<u128, PendingEtching>, Result<(), ValidationError>) {
    if before.contains_key(name) && !same_request(before[name], record) {
        (before, Err(ValidationError::DuplicatePending { name }))
    } else {
        (before.insert(name, record), Ok(()))
    }
}

fn same_txid(a: &[u8; 32], b: &[u8; 32]) -> (r: bool)
    ensures
        r == (a@ == b@),
{
    let mut i: usize = 0;
    while i < 32
        invariant
            i <= 32,
            forall|j: int| 0 <= j < i ==> a@[j] == b@[j],
        decreases 32 - i,
    {
        if a[i] != b[i] {
            return false;
        }
        i += 1;
    }
    assert(a@ =~= b@);
    true
}

/// What a resumed request is to do, given the record found under its name.
pub open spec fn resume_spec(name: u128, found: Option<PendingEtching>) -> Result<
    WorkflowAction,
    StateError,
> {
    match found {
        None => Ok(WorkflowAction::BroadcastCommit),
        Some(p) => if p.directive.name != name || p.state == WorkflowState::Validated {
            Err(StateError::CorruptPendingRecord { name })
        } else if p.state == WorkflowState::Failed {
            Ok(WorkflowAction::AwaitConfirmations)
        } else {
            Ok(action_in(p.state))
        },
    }
}

impl EtchingStateStore {
    /// The record kept under `name`, if there is one.
    pub open spec fn lookup(&self, name: u128) -> Option<PendingEtching> {
        if self@.contains_key(name) {
            Some(self@[name])
        } else {
            None
        }
    }

    /// A store without records.
    pub fn new() -> (r: EtchingStateStore)
        ensures
            r@ == Map::<u128, PendingEtching>::empty(),
    {
        broadcast use vstd::std_specs::hash::group_hash_axioms;

        EtchingStateStore { records: HashMap::new() }
    }

    /// Whether an etching is pending for `name`.
    pub fn contains(&self, name: u128) -> (r: bool)
        ensures
            r == self@.contains_key(name),
    {
        broadcast use vstd::std_specs::hash::group_hash_axioms;

        self.records.contains_key(&name)
    }

    /// The record kept under `name`.
    pub fn get(&self, name: u128) -> (r: Option<PendingEtching>)
        ensures
            r == self.lookup(name),
    {
        broadcast use vstd::std_specs::hash::group_hash_axioms;

        match self.records.get(&name) {
            Some(p) => Some(*p),
            None => None,
        }
    }

    /// Records `record` under `name`. Where a record of another request is
    /// kept there, the store stays as it was and the name is reported as
    /// pending; a record of the same request takes the place of the one kept.
    pub fn put(&mut self, name: u128, record: PendingEtching) -> (r: Result<(), ValidationError>)
        ensures
            (final(self)@, r) == put_spec(old(self)@, name, record),
    {
        broadcast use vstd::std_specs::hash::group_hash_axioms;

        match self.records.get(&name) {
            Some(p) => {
                if !(p.directive.same(&record.directive) && same_txid(
                    &p.commit_txid,
                    &record.commit_txid,
                ) && p.commit_height == record.commit_height) {
                    return Err(ValidationError::DuplicatePending { name });
                }
            },
            None => {},
        }
        self.records.insert(name, record);
        Ok(())
    }

    /// Forgets the record kept under `name`.
    pub fn clear(&mut self, name: u128)
        ensures
            final(self)@ == old(self)@.remove(name),
    {
        broadcast use vstd::std_specs::hash::group_hash_axioms;

        self.records.remove(&name);
    }

    /// Moves the record kept under `name` on by one event and returns the
    /// state it reached. Without a record nothing changes.
    pub fn advance(&mut self, name: u128, event: WorkflowEvent) -> (r: Option<WorkflowState>)
        ensures
            match old(self).lookup(name) {
                Some(p) => r == Some(next_state(p.state, event)) && final(self)@ == old(
                    self,
                )@.insert(
                    name,
                    (PendingEtching { state: next_state(p.state, event), ..p }),
                ),
                None => r is None && final(self)@ == old(self)@,
            },
    {
        broadcast use vstd::std_specs::hash::group_hash_axioms;

        match self.get(name) {
            Some(p) => {
                let (next, _) = step(p.state, event);
                self.records.insert(
                    name,
                    PendingEtching {
                        directive: p.directive,
                        commit_txid: p.commit_txid,
                        commit_height: p.commit_height,
                        state: next,
                    },
                );
                Some(next)
            },
            None => None,
        }
    }

    /// What a request for `name` that is taken up again is to do: start with
    /// the commit where nothing is pending, and otherwise go on from the
    /// recorded state without sending the commit again.
    pub fn resume(&self, name: u128) -> (r: Result<WorkflowAction, StateError>)
        ensures
            r == resume_spec(name, self.lookup(name)),
    {
        match self.get(name) {
            None => Ok(WorkflowAction::BroadcastCommit),
            Some(p) => {
                if p.directive.name != name {
                    return Err(StateError::CorruptPendingRecord { name });
                }
                match p.state {
                    WorkflowState::Validated => Err(StateError::CorruptPendingRecord { name }),
                    WorkflowState::Failed => Ok(WorkflowAction::AwaitConfirmations),
                    s => Ok(action(s)),
                }
            },
        }
    }
}

/// Whatever is offered under a name that holds a record, a record of the
/// same request is kept there afterwards, so that a request taken up again
/// never sends its commit a second time.
pub proof fn lemma_recorded_request_is_kept(
    before: Map<u128, PendingEtching>,
    name: u128,
    offered: PendingEtching,
)
    requires
        before.contains_key(name),
    ensures
        put_spec(before, name, offered).0.contains_key(name),
        same_request(put_spec(before, name, offered).0[name], before[name]),
        put_spec(before, name, offered).1 is Err ==> put_spec(before, name, offered).0 == before,
        resume_spec(name, Some(put_spec(before, name, offered).0[name])) != Ok::<
            WorkflowAction,
            StateError,
        >(WorkflowAction::BroadcastCommit),
{
}

} // verus!
