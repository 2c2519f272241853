//! The counter service: create-once, the authority gate, overflow safety,
//! and the full owner scenario.

use derived_authority::counter::{
    Counter, CounterError, CounterProgram, CustomError, ErrorCode, Increment, Initialize,
};

const PROGRAM_ID: [u8; 32] = [9u8; 32];
const OWNER_A: [u8; 32] = [1u8; 32];
const OWNER_B: [u8; 32] = [2u8; 32];

fn counter_of(prog: &CounterProgram, addr: &[u8; 32]) -> Counter {
    prog.records
        .iter()
        .find(|e| &e.0 == addr)
        .expect("record must exist")
        .1
}

#[test]
fn record_space_is_exact() {
    assert_eq!(Counter::SPACE, 49);
}

#[test]
fn initialize_creates_zeroed_record() {
    let mut prog = CounterProgram::new(PROGRAM_ID);
    let (addr, bump) = prog.counter_address(&OWNER_A).expect("derivation must exist");
    let r = prog.initialize(&Initialize { counter: addr, user: OWNER_A });
    assert_eq!(r, Ok(()));
    let rec = counter_of(&prog, &addr);
    assert_eq!(rec.count, 0);
    assert_eq!(rec.authority, OWNER_A);
    assert_eq!(rec.bump, bump);
}

#[test]
fn initialize_rejects_wrong_address() {
    let mut prog = CounterProgram::new(PROGRAM_ID);
    let forged = [8u8; 32];
    let r = prog.initialize(&Initialize { counter: forged, user: OWNER_A });
    assert_eq!(r, Err(CounterError::AddressMismatch));
    assert!(prog.records.is_empty());
}

#[test]
fn initialize_twice_fails_already_exists() {
    let mut prog = CounterProgram::new(PROGRAM_ID);
    let (addr, _) = prog.counter_address(&OWNER_A).expect("derivation must exist");
    let acc = Initialize { counter: addr, user: OWNER_A };
    assert_eq!(prog.initialize(&acc), Ok(()));
    let before = prog.records.clone();
    assert_eq!(prog.initialize(&acc), Err(CounterError::AlreadyExists));
    assert_eq!(prog.records, before);
}

#[test]
fn increment_requires_existing_record() {
    let mut prog = CounterProgram::new(PROGRAM_ID);
    let (addr, _) = prog.counter_address(&OWNER_A).expect("derivation must exist");
    let r = prog.increment(&Increment { counter: addr, user: OWNER_A });
    assert_eq!(r, Err(CounterError::RecordNotFound));
}

#[test]
fn owner_scenario_three_increments_then_stranger() {
    let mut prog = CounterProgram::new(PROGRAM_ID);
    let (addr, _) = prog.counter_address(&OWNER_A).expect("derivation must exist");
    assert_eq!(prog.initialize(&Initialize { counter: addr, user: OWNER_A }), Ok(()));
    assert_eq!(counter_of(&prog, &addr).count, 0);

    for _ in 0..3 {
        assert_eq!(prog.increment(&Increment { counter: addr, user: OWNER_A }), Ok(()));
    }
    assert_eq!(counter_of(&prog, &addr).count, 3);

    let r = prog.increment(&Increment { counter: addr, user: OWNER_B });
    assert_eq!(r, Err(CounterError::Custom(CustomError::Unauthorized)));
    assert_eq!(counter_of(&prog, &addr).count, 3);
}

#[test]
fn increment_rejects_record_with_tampered_byte() {
    let mut prog = CounterProgram::new(PROGRAM_ID);
    let (addr, bump) = prog.counter_address(&OWNER_A).expect("derivation must exist");
    // a record whose stored byte no longer reproduces its own address
    prog.records.push((addr, Counter { bump: bump.wrapping_add(1), authority: OWNER_A, count: 5 }));
    let r = prog.increment(&Increment { counter: addr, user: OWNER_A });
    assert_eq!(r, Err(CounterError::AddressMismatch));
    assert_eq!(counter_of(&prog, &addr).count, 5);
}

#[test]
fn increment_at_maximum_fails_overflow_and_keeps_count() {
    let mut prog = CounterProgram::new(PROGRAM_ID);
    let (addr, bump) = prog.counter_address(&OWNER_A).expect("derivation must exist");
    prog.records.push((addr, Counter { bump, authority: OWNER_A, count: u64::MAX }));
    let r = prog.increment(&Increment { counter: addr, user: OWNER_A });
    assert_eq!(r, Err(CounterError::Code(ErrorCode::NumericalOverflow)));
    assert_eq!(counter_of(&prog, &addr).count, u64::MAX);
}
