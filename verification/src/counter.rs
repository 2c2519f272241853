//! The counter service: one persisted counter record per owning identity,
//! stored at an address derived from a fixed domain tag and the owner, created
//! once, and incremented only by its stored authority with checked arithmetic.

use vstd::prelude::*;

use crate::Id;
use crate::id_eq;
use crate::pda::{derive_address, exact_pda, found_pda, verify_address};
use crate::records::{
    find_index, find_rec, lemma_find_rec_push, lemma_find_set_rec, lemma_set_rec_at, set_rec,
    unique_addrs,
};

verus! {

/// A persisted counter record: the canonical disambiguation byte of its own
/// address, the sole identity allowed to increment, and the running count.
#[derive(Clone, Copy, Debug, PartialEq, Eq)]
pub struct Counter {
    pub bump: u8,
    pub authority: Id,
    pub count: u64,
}

/// The error of the counter program itself.
#[derive(Clone, Copy, Debug, PartialEq, Eq)]
pub enum CustomError {
    Unauthorized,
}

/// The arithmetic error of the counter program.
#[derive(Clone, Copy, Debug, PartialEq, Eq)]
pub enum ErrorCode {
    NumericalOverflow,
}

/// Everything a counter operation can fail with: validation failures detected
/// before any mutation, and the program's own gate errors.
#[derive(Clone, Copy, Debug, PartialEq, Eq)]
pub enum CounterError {
    /// The supplied address disagrees with the recomputed derivation.
    AddressMismatch,
    /// A record is already bound to the derived address.
    AlreadyExists,
    /// No record is bound to the supplied address.
    RecordNotFound,
    /// The caller is not the stored authority.
    Custom(CustomError),
    /// The count is already at its maximum.
    Code(ErrorCode),
}

/// The accounts a caller presents to create a counter.
#[derive(Clone, Copy, Debug, PartialEq, Eq)]
pub struct Initialize {
    /// The address the caller claims the counter lives at.
    pub counter: Id,
    /// The owning identity; it signs and becomes the stored authority.
    pub user: Id,
}

/// The accounts a caller presents to increment a counter.
#[derive(Clone, Copy, Debug, PartialEq, Eq)]
pub struct Increment {
    /// The address of the counter record.
    pub counter: Id,
    /// The calling identity; must equal the stored authority.
    pub user: Id,
}

/// The domain tag of counter addresses: the bytes of "counter".
pub open spec fn counter_tag() -> Seq<u8> {
    seq![99u8, 111u8, 117u8, 110u8, 116u8, 101u8, 114u8]
}

/// The full seed sequence of a counter address: the domain tag, then the
/// owner identity.
pub open spec fn counter_seeds(user: Id) -> Seq<Seq<u8>> {
    seq![counter_tag(), user@]
}

/// Builds the domain tag as a byte vector.
fn counter_tag_vec() -> (r: Vec<u8>)
    ensures
        r@ == counter_tag(),
{
    let mut v: Vec<u8> = Vec::new();
    v.push(99);
    v.push(111);
    v.push(117);
    v.push(110);
    v.push(116);
    v.push(101);
    v.push(114);
    proof {
        assert(v@ =~= counter_tag());
    }
    v
}

/// Builds the seed sequence of the counter address owned by `user`.
pub fn counter_seed_vec(user: &Id) -> (r: Vec<Vec<u8>>)
    ensures
        r.deep_view() == counter_seeds(*user),
{
    let mut r: Vec<Vec<u8>> = Vec::new();
    r.push(counter_tag_vec());
    r.push(vstd::slice::slice_to_vec(user.as_slice()));
    proof {
        assert(r.deep_view() =~~= counter_seeds(*user));
    }
    r
}

/// The counter program: its own program identity and the records persisted
/// under it, keyed by derived address.
pub struct CounterProgram {
    pub program_id: Id,
    pub records: Vec<(Id, Counter)>,
}

/// What `initialize` does: derive the address for the owner's seeds, demand
/// that the supplied address equals it, create the record exactly once, and
/// otherwise leave every record untouched.
pub open spec fn init_step(rs: Seq<(Id, Counter)>, program_id: Id, acc: Initialize) -> (Seq<
    (Id, Counter),
>, Result<(), CounterError>) {
    match found_pda(counter_seeds(acc.user), program_id@) {
        Option::None => (rs, Result::Err(CounterError::AddressMismatch)),
        Option::Some(p) => if acc.counter@ != p.0 {
            (rs, Result::Err(CounterError::AddressMismatch))
        } else if find_rec(rs, acc.counter@) is Some {
            (rs, Result::Err(CounterError::AlreadyExists))
        } else {
            (
                rs.push((acc.counter, Counter { bump: p.1, authority: acc.user, count: 0 })),
                Result::Ok(()),
            )
        },
    }
}

/// What `increment` does: load the record at the supplied address, check the
/// stored disambiguation byte still reproduces that address from the stored
/// authority's seeds, gate on the caller, and add one with checked
/// arithmetic; every failure leaves the records unchanged.
pub open spec fn incr_step(rs: Seq<(Id, Counter)>, program_id: Id, acc: Increment) -> (Seq<
    (Id, Counter),
>, Result<(), CounterError>) {
    match find_rec(rs, acc.counter@) {
        Option::None => (rs, Result::Err(CounterError::RecordNotFound)),
        Option::Some(c) => if exact_pda(
            counter_seeds(c.authority).push(seq![c.bump]),
            program_id@,
        ) != Some(acc.counter@) {
            (rs, Result::Err(CounterError::AddressMismatch))
        } else if c.authority@ != acc.user@ {
            (rs, Result::Err(CounterError::Custom(CustomError::Unauthorized)))
        } else if c.count == u64::MAX {
            (rs, Result::Err(CounterError::Code(ErrorCode::NumericalOverflow)))
        } else {
            (
                set_rec(
                    rs,
                    acc.counter@,
                    Counter { bump: c.bump, authority: c.authority, count: (c.count + 1) as u64 },
                ),
                Result::Ok(()),
            )
        },
    }
}

impl Counter {
    /// The exact persisted size of a counter record: the platform's
    /// bookkeeping header, then disambiguation byte, authority and count.
    /// Allocated exactly at creation; a field addition requires a new
    /// versioned record.
    pub const SPACE: usize = 8 + 1 + 32 + 8;
}

impl CounterProgram {
    /// Each derived address holds at most one record.
    pub open spec fn wf(self) -> bool {
        unique_addrs(self.records@)
    }

    /// A fresh program with no records.
    pub fn new(program_id: Id) -> (r: CounterProgram)
        ensures
            r.program_id == program_id,
            r.records@ =~= Seq::<(Id, Counter)>::empty(),
            r.wf(),
    {
        CounterProgram { program_id, records: Vec::new() }
    }

    /// The derived address and canonical disambiguation byte of the counter
    /// owned by `user`.
    pub fn counter_address(&self, user: &Id) -> (r: Option<(Id, u8)>)
        ensures
            r matches Some(p) ==> found_pda(counter_seeds(*user), self.program_id@) == Some(
                (p.0@, p.1),
            ),
            r is None ==> found_pda(counter_seeds(*user), self.program_id@) is None,
    {
        let seeds = counter_seed_vec(user);
        derive_address(&seeds, &self.program_id)
    }

    /// Creates the counter owned by `acc.user` with count zero, exactly once:
    /// fails with `AddressMismatch` if `acc.counter` is not the derived
    /// address, with `AlreadyExists` if a record is already bound there, and
    /// mutates nothing on any failure.
    pub fn initialize(&mut self, acc: &Initialize) -> (r: Result<(), CounterError>)
        requires
            old(self).wf(),
        ensures
            final(self).wf(),
            final(self).program_id == old(self).program_id,
            (final(self).records@, r) == init_step(old(self).records@, old(self).program_id, *acc),
    {
        let seeds = counter_seed_vec(&acc.user);
        match derive_address(&seeds, &self.program_id) {
            None => Err(CounterError::AddressMismatch),
            Some((addr, bump)) => {
                if !id_eq(&addr, &acc.counter) {
                    Err(CounterError::AddressMismatch)
                } else {
                    match find_index(&self.records, &acc.counter) {
                        Some(_) => Err(CounterError::AlreadyExists),
                        None => {
                            let rec = Counter { bump, authority: acc.user, count: 0 };
                            self.records.push((acc.counter, rec));
                            proof {
                                assert(final(self).wf()) by {
                                    assert(forall|k: int|
                                        0 <= k < old(self).records@.len()
                                            ==> old(self).records@[k].0@ != acc.counter@);
                                }
                            }
                            Ok(())
                        },
                    }
                }
            },
        }
    }

    /// Adds one to the counter at `acc.counter`, gated on the stored
    /// authority and on checked arithmetic; every failure leaves the records
    /// unchanged and reports which precondition broke.
    pub fn increment(&mut self, acc: &Increment) -> (r: Result<(), CounterError>)
        requires
            old(self).wf(),
        ensures
            final(self).wf(),
            final(self).program_id == old(self).program_id,
            (final(self).records@, r) == incr_step(old(self).records@, old(self).program_id, *acc),
    {
        match find_index(&self.records, &acc.counter) {
            None => Err(CounterError::RecordNotFound),
            Some(i) => {
                let key = self.records[i].0;
                let c = self.records[i].1;
                let seeds = counter_seed_vec(&c.authority);
                if !verify_address(&acc.counter, seeds, c.bump, &self.program_id) {
                    Err(CounterError::AddressMismatch)
                } else if !id_eq(&c.authority, &acc.user) {
                    Err(CounterError::Custom(CustomError::Unauthorized))
                } else if c.count == u64::MAX {
                    Err(CounterError::Code(ErrorCode::NumericalOverflow))
                } else {
                    let updated = Counter { bump: c.bump, authority: c.authority, count: c.count + 1 };
                    self.records[i] = (key, updated);
                    proof {
                        lemma_set_rec_at(old(self).records@, acc.counter@, updated, i as int);
                    }
                    Ok(())
                }
            },
        }
    }
}

/// Law: creation happens exactly once. If `initialize` succeeds from some
/// state, running it again with the same accounts from the resulting state
/// fails with `AlreadyExists` and leaves that state exactly as it was.
pub proof fn lemma_initialize_once(rs0: Seq<(Id, Counter)>, program_id: Id, acc: Initialize)
    ensures
        init_step(rs0, program_id, acc).1 is Ok ==> {
            let rs1 = init_step(rs0, program_id, acc).0;
            init_step(rs1, program_id, acc) == (
                rs1,
                Result::<(), CounterError>::Err(CounterError::AlreadyExists),
            )
        },
{
    if init_step(rs0, program_id, acc).1 is Ok {
        match found_pda(counter_seeds(acc.user), program_id@) {
            Option::None => {},
            Option::Some(p) => {
                let rec = Counter { bump: p.1, authority: acc.user, count: 0 };
                lemma_find_rec_push(rs0, acc.counter@, (acc.counter, rec));
            },
        }
    }
}

/// Law: the authority gate. If the record at `acc.counter` exists, its stored
/// byte reproduces the address, and the caller differs from the stored
/// authority, `increment` fails with `Unauthorized` and changes nothing.
pub proof fn lemma_increment_authority_gate(rs: Seq<(Id, Counter)>, program_id: Id, acc: Increment)
    ensures
        (find_rec(rs, acc.counter@) matches Some(c) && exact_pda(
            counter_seeds(c.authority).push(seq![c.bump]),
            program_id@,
        ) == Some(acc.counter@) && c.authority@ != acc.user@) ==> incr_step(rs, program_id, acc)
            == (rs, Result::<(), CounterError>::Err(CounterError::Custom(CustomError::Unauthorized))),
{
}

/// Law: overflow safety. A counter standing at the greatest representable
/// count fails with `NumericalOverflow` when incremented, and keeps its
/// count.
pub proof fn lemma_increment_overflow(rs: Seq<(Id, Counter)>, program_id: Id, acc: Increment)
    ensures
        (find_rec(rs, acc.counter@) matches Some(c) && exact_pda(
            counter_seeds(c.authority).push(seq![c.bump]),
            program_id@,
        ) == Some(acc.counter@) && c.authority@ == acc.user@ && c.count == u64::MAX) ==> incr_step(
            rs,
            program_id,
            acc,
        ) == (rs, Result::<(), CounterError>::Err(CounterError::Code(ErrorCode::NumericalOverflow))),
{
}

/// Law: a successful creation binds exactly the requested record — count
/// zero, the owner as immutable authority — and touches no other address.
pub proof fn lemma_initialize_effect(
    rs: Seq<(Id, Counter)>,
    program_id: Id,
    acc: Initialize,
    b: Seq<u8>,
)
    ensures
        init_step(rs, program_id, acc).1 is Ok ==> {
            let rs2 = init_step(rs, program_id, acc).0;
            &&& find_rec(rs2, acc.counter@) matches Some(c) && c.count == 0 && c.authority
                == acc.user
            &&& b != acc.counter@ ==> find_rec(rs2, b) == find_rec(rs, b)
        },
{
    if init_step(rs, program_id, acc).1 is Ok {
        match found_pda(counter_seeds(acc.user), program_id@) {
            Option::None => {},
            Option::Some(p) => {
                let rec = Counter { bump: p.1, authority: acc.user, count: 0 };
                lemma_find_rec_push(rs, acc.counter@, (acc.counter, rec));
                lemma_find_rec_push(rs, b, (acc.counter, rec));
            },
        }
    }
}

/// Law: a successful increment adds exactly one to the targeted record,
/// keeps its authority and disambiguation byte, and touches no other
/// address; in particular no record's count ever decreases.
pub proof fn lemma_increment_effect(
    rs: Seq<(Id, Counter)>,
    program_id: Id,
    acc: Increment,
    b: Seq<u8>,
)
    ensures
        incr_step(rs, program_id, acc).1 is Ok ==> {
            let rs2 = incr_step(rs, program_id, acc).0;
            &&& find_rec(rs, acc.counter@) matches Some(c0) && find_rec(rs2, acc.counter@)
                matches Some(c1) && c1.count == c0.count + 1 && c1.authority == c0.authority
                && c1.bump == c0.bump
            &&& b != acc.counter@ ==> find_rec(rs2, b) == find_rec(rs, b)
        },
{
    if incr_step(rs, program_id, acc).1 is Ok {
        match find_rec(rs, acc.counter@) {
            Option::None => {},
            Option::Some(c0) => {
                let c1 = Counter {
                    bump: c0.bump,
                    authority: c0.authority,
                    count: (c0.count + 1) as u64,
                };
                lemma_find_set_rec(rs, acc.counter@, c1, acc.counter@);
                lemma_find_set_rec(rs, acc.counter@, c1, b);
            },
        }
    }
}

/// Law: atomicity. Whenever a counter operation fails, it has mutated
/// nothing: the records after the step equal the records before it.
pub proof fn lemma_counter_atomic(
    rs: Seq<(Id, Counter)>,
    program_id: Id,
    ini: Initialize,
    inc: Increment,
)
    ensures
        init_step(rs, program_id, ini).1 is Err ==> init_step(rs, program_id, ini).0 == rs,
        incr_step(rs, program_id, inc).1 is Err ==> incr_step(rs, program_id, inc).0 == rs,
{
}

} // verus!
