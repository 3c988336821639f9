use rune_etching::command::{BatchCheckRuneName, CheckError, Destination, Etch, EtchError};
use rune_etching::commitment::commitment;
use rune_etching::directive::{
    Edict, EncodingError, EtchingDirective, SpacedName, ValidationError,
};
use rune_etching::encoder::encode;
use rune_etching::schedule::{NameSchedule, Step};
use rune_etching::store::{EtchingStateStore, PendingEtching};
use rune_etching::validator::{validate, ChainState, Network, RESERVED};
use rune_etching::workflow::WorkflowState;

fn schedule() -> NameSchedule {
    NameSchedule {
        initial: 1000,
        steps: vec![Step { height: 100, minimum: 500 }, Step { height: 200, minimum: 100 }],
    }
}

fn chain() -> ChainState {
    ChainState { network: Network::Regtest, index_enabled: true, name_resolves: false }
}

fn record(name: u128) -> PendingEtching {
    PendingEtching {
        directive: EtchingDirective {
            name,
            divisibility: 0,
            premine: 0,
            terms: None,
            symbol: '$',
            spacers: 0,
            edict: Edict { output: 0, amount: 0 },
        },
        commit_txid: [7; 32],
        commit_height: 90,
        state: WorkflowState::CommitBroadcast,
    }
}

fn etch(name: u128) -> Etch {
    Etch {
        divisibility: 0,
        fee_rate: 1,
        rune: SpacedName { name, spacers: 0 },
        supply: 0,
        symbol: '$',
        premine: 0,
        amount: 1,
        cap: 1,
        height_start: 0,
        height_end: 1,
        offset_start: 0,
        offset_end: 1,
    }
}

#[test]
fn schedule_minimum_by_height() {
    let s = schedule();
    assert_eq!(s.minimum_name_at_height(0), 1000);
    assert_eq!(s.minimum_name_at_height(99), 1000);
    assert_eq!(s.minimum_name_at_height(100), 500);
    assert_eq!(s.minimum_name_at_height(199), 500);
    assert_eq!(s.minimum_name_at_height(200), 100);
    assert_eq!(s.minimum_name_at_height(u32::MAX), 100);
    let none = NameSchedule { initial: 3, steps: vec![] };
    assert_eq!(none.minimum_name_at_height(12), 3);
}

#[test]
fn schedule_minimum_never_rises() {
    let s = schedule();
    let mut last = s.minimum_name_at_height(0);
    for h in 1..300 {
        let m = s.minimum_name_at_height(h);
        assert!(m <= last);
        last = m;
    }
}

#[test]
fn name_of_exactly_the_minimum_passes() {
    let store = EtchingStateStore::new();
    assert_eq!(validate(500, 94, &store, &chain(), &schedule()), Ok(100));
    assert_eq!(validate(1000, 0, &store, &chain(), &schedule()), Ok(6));
    assert_eq!(etch(500).prepare(94, &store, &chain(), &schedule()).unwrap().reveal_height, 100);
}

#[test]
fn name_below_the_minimum_is_too_short() {
    let store = EtchingStateStore::new();
    assert_eq!(
        validate(499, 94, &store, &chain(), &schedule()),
        Err(ValidationError::NameTooShort { name: 499, minimum: 500, height: 100 })
    );
    assert_eq!(
        validate(500, 93, &store, &chain(), &schedule()),
        Err(ValidationError::NameTooShort { name: 500, minimum: 1000, height: 99 })
    );
}

#[test]
fn reserved_name_is_refused_and_nothing_changes() {
    let mut store = EtchingStateStore::new();
    store.put(1, record(1)).unwrap();
    assert_eq!(
        validate(RESERVED, 94, &store, &chain(), &schedule()),
        Err(ValidationError::ReservedName { name: RESERVED })
    );
    assert_eq!(
        validate(u128::MAX, 94, &store, &chain(), &schedule()),
        Err(ValidationError::ReservedName { name: u128::MAX })
    );
    assert_eq!(validate(RESERVED - 1, 94, &store, &chain(), &schedule()), Ok(100));
    assert_eq!(store.get(1), Some(record(1)));
    assert_eq!(store.get(RESERVED), None);
}

#[test]
fn pending_name_is_a_duplicate_whatever_else_holds() {
    let mut store = EtchingStateStore::new();
    store.put(600, record(600)).unwrap();
    let dup = Err(ValidationError::DuplicatePending { name: 600 });
    assert_eq!(validate(600, 94, &store, &chain(), &schedule()), dup);
    assert_eq!(validate(600, 0, &store, &chain(), &schedule()), dup);
    let off = ChainState { network: Network::Bitcoin, index_enabled: false, name_resolves: true };
    assert_eq!(validate(600, 94, &store, &off, &schedule()), dup);
    store.put(RESERVED, record(RESERVED)).unwrap();
    assert_eq!(
        validate(RESERVED, 94, &store, &chain(), &schedule()),
        Err(ValidationError::DuplicatePending { name: RESERVED })
    );
}

#[test]
fn index_is_checked_before_the_lookup() {
    let store = EtchingStateStore::new();
    let off = ChainState { network: Network::Regtest, index_enabled: false, name_resolves: true };
    assert_eq!(
        validate(600, 94, &store, &off, &schedule()),
        Err(ValidationError::IndexUnavailable)
    );
    let etched = ChainState { network: Network::Regtest, index_enabled: true, name_resolves: true };
    assert_eq!(
        validate(600, 94, &store, &etched, &schedule()),
        Err(ValidationError::AlreadyEtched { name: 600 })
    );
    assert_eq!(
        validate(RESERVED, 94, &store, &etched, &schedule()),
        Err(ValidationError::AlreadyEtched { name: RESERVED })
    );
}

#[test]
fn check_name_command() {
    let store = EtchingStateStore::new();
    let cmd = BatchCheckRuneName {
        rune: SpacedName { name: 500, spacers: 1 },
        rune_destination: Destination { network: Network::Regtest, script: vec![0x51] },
    };
    assert_eq!(cmd.run(94, &store, &chain(), &schedule()), Ok(100));
    assert_eq!(
        cmd.run(93, &store, &chain(), &schedule()),
        Err(CheckError::Validation(ValidationError::NameTooShort {
            name: 500,
            minimum: 1000,
            height: 99
        }))
    );
    let elsewhere = BatchCheckRuneName {
        rune: SpacedName { name: 500, spacers: 1 },
        rune_destination: Destination { network: Network::Bitcoin, script: vec![0x51] },
    };
    assert_eq!(
        elsewhere.run(94, &store, &chain(), &schedule()),
        Err(CheckError::NetworkMismatch { expected: Network::Regtest, found: Network::Bitcoin })
    );
    assert_eq!(
        BatchCheckRuneName::check_etching_rune_name(&store, &chain(), &schedule(), 94, 500),
        Ok(100)
    );
}

#[test]
fn divisibility_thirty_nine_is_refused_first() {
    let mut cmd = etch(RESERVED);
    cmd.divisibility = 39;
    let expected = ValidationError::DivisibilityOutOfRange { divisibility: 39, limit: 38 };
    assert_eq!(cmd.directive(), Err(expected));
    let store = EtchingStateStore::new();
    let off = ChainState { network: Network::Regtest, index_enabled: false, name_resolves: true };
    assert_eq!(cmd.prepare(94, &store, &off, &schedule()), Err(EtchError::Validation(expected)));
    cmd.divisibility = 38;
    assert_eq!(cmd.directive().unwrap().divisibility, 38);
}

#[test]
fn prepare_gives_directive_message_and_commitment() {
    let store = EtchingStateStore::new();
    let cmd = etch(500);
    let plan = cmd.prepare(94, &store, &chain(), &schedule()).unwrap();
    assert_eq!(plan.directive, cmd.directive().unwrap());
    assert_eq!(plan.directive.edict, Edict { output: 0, amount: 0 });
    assert_eq!(plan.message, encode(&plan.directive).unwrap());
    assert_eq!(
        plan.message,
        vec![
            1, 0, 3, 1, 0xf4, 0x03, 2, 0, 3, 0, 4, 36, 5, 0, 6, 1, 7, 1, 8, 0, 9, 1, 10, 0, 11,
            1, 12, 0, 13, 0
        ]
    );
    assert_eq!(plan.commitment, commitment(500));
    assert_eq!(plan.reveal_height, 100);
    assert_eq!(cmd.output([9; 32]).rune, SpacedName { name: 500, spacers: 0 });
    assert_eq!(cmd.output([9; 32]).transaction, [9; 32]);
}

#[test]
fn prepare_refuses_a_message_that_is_too_large() {
    let store = EtchingStateStore::new();
    let mut cmd = etch(500);
    cmd.amount = u128::MAX;
    cmd.cap = u128::MAX;
    cmd.height_start = u64::MAX;
    cmd.height_end = u64::MAX;
    cmd.offset_start = u64::MAX;
    cmd.offset_end = u64::MAX;
    assert_eq!(
        cmd.prepare(94, &store, &chain(), &schedule()),
        Err(EtchError::Encoding(EncodingError::MessageTooLarge { length: 102, limit: 82 }))
    );
}

#[test]
fn prepare_validates_the_name() {
    let mut store = EtchingStateStore::new();
    store.put(500, record(500)).unwrap();
    assert_eq!(
        etch(500).prepare(94, &store, &chain(), &schedule()),
        Err(EtchError::Validation(ValidationError::DuplicatePending { name: 500 }))
    );
}
