//! A keyed store of persisted records: an association list from derived
//! addresses to records, with first-match lookup and in-place replacement.
//! Each service keeps at most one record per address.

use vstd::prelude::*;

use crate::Id;
use crate::id_eq;

verus! {

/// The record stored under address `a`: the first entry whose key matches.
pub open spec fn find_rec<R>(rs: Seq<(Id, R)>, a: Seq<u8>) -> Option<R>
    decreases rs.len(),
{
    if rs.len() == 0 {
        None
    } else if rs[0].0@ == a {
        Some(rs[0].1)
    } else {
        find_rec(rs.drop_first(), a)
    }
}

/// `rs` with the first record under address `a` replaced by `r`; unchanged
/// where no record is stored under `a`.
pub open spec fn set_rec<R>(rs: Seq<(Id, R)>, a: Seq<u8>, r: R) -> Seq<(Id, R)>
    decreases rs.len(),
{
    if rs.len() == 0 {
        rs
    } else if rs[0].0@ == a {
        seq![(rs[0].0, r)] + rs.drop_first()
    } else {
        seq![rs[0]] + set_rec(rs.drop_first(), a, r)
    }
}

/// Each address holds at most one record.
pub open spec fn unique_addrs<R>(rs: Seq<(Id, R)>) -> bool {
    forall|i: int, j: int| 0 <= i < j < rs.len() ==> rs[i].0@ != rs[j].0@
}

pub proof fn lemma_find_rec_none<R>(rs: Seq<(Id, R)>, a: Seq<u8>)
    requires
        forall|k: int| 0 <= k < rs.len() ==> rs[k].0@ != a,
    ensures
        find_rec(rs, a) is None,
    decreases rs.len(),
{
    if rs.len() > 0 {
        assert(forall|k: int|
            0 <= k < rs.drop_first().len() ==> rs.drop_first()[k] == rs[k + 1]);
        lemma_find_rec_none(rs.drop_first(), a);
    }
}

pub proof fn lemma_find_rec_found<R>(rs: Seq<(Id, R)>, a: Seq<u8>, i: int)
    requires
        0 <= i < rs.len(),
        forall|k: int| 0 <= k < i ==> rs[k].0@ != a,
        rs[i].0@ == a,
    ensures
        find_rec(rs, a) == Some(rs[i].1),
    decreases i,
{
    if i > 0 {
        assert(forall|k: int|
            0 <= k < rs.drop_first().len() ==> rs.drop_first()[k] == rs[k + 1]);
        lemma_find_rec_found(rs.drop_first(), a, i - 1);
    }
}

pub proof fn lemma_find_rec_push<R>(rs: Seq<(Id, R)>, a: Seq<u8>, p: (Id, R))
    ensures
        find_rec(rs.push(p), a) == (if find_rec(rs, a) is Some {
            find_rec(rs, a)
        } else if p.0@ == a {
            Some(p.1)
        } else {
            None
        }),
    decreases rs.len(),
{
    reveal_with_fuel(find_rec, 3);
    if rs.len() == 0 {
        assert(rs.push(p)[0] == p);
        assert(rs.push(p).drop_first() =~= Seq::<(Id, R)>::empty());
    } else {
        assert(rs.push(p)[0] == rs[0]);
        assert(rs.push(p).drop_first() =~= rs.drop_first().push(p));
        lemma_find_rec_push(rs.drop_first(), a, p);
        if rs[0].0@ == a {
            assert(find_rec(rs.push(p), a) == Some(rs[0].1));
            assert(find_rec(rs, a) == Some(rs[0].1));
        } else {
            assert(find_rec(rs.push(p), a) == find_rec(rs.drop_first().push(p), a));
            assert(find_rec(rs, a) == find_rec(rs.drop_first(), a));
        }
    }
}

pub proof fn lemma_set_rec_at<R>(rs: Seq<(Id, R)>, a: Seq<u8>, r: R, i: int)
    requires
        0 <= i < rs.len(),
        forall|k: int| 0 <= k < i ==> rs[k].0@ != a,
        rs[i].0@ == a,
    ensures
        set_rec(rs, a, r) == rs.update(i, (rs[i].0, r)),
    decreases i,
{
    if i == 0 {
        assert(set_rec(rs, a, r) =~= rs.update(0, (rs[0].0, r)));
    } else {
        assert(forall|k: int|
            0 <= k < rs.drop_first().len() ==> rs.drop_first()[k] == rs[k + 1]);
        lemma_set_rec_at(rs.drop_first(), a, r, i - 1);
        assert(seq![rs[0]] + rs.drop_first().update(i - 1, (rs[i].0, r)) =~= rs.update(
            i,
            (rs[i].0, r),
        ));
    }
}

pub proof fn lemma_find_set_rec<R>(rs: Seq<(Id, R)>, a: Seq<u8>, r: R, b: Seq<u8>)
    ensures
        find_rec(set_rec(rs, a, r), b) == (if b == a && find_rec(rs, a) is Some {
            Some(r)
        } else {
            find_rec(rs, b)
        }),
    decreases rs.len(),
{
    reveal_with_fuel(find_rec, 2);
    if rs.len() > 0 {
        if rs[0].0@ == a {
            let s2 = seq![(rs[0].0, r)] + rs.drop_first();
            assert(s2[0] == (rs[0].0, r));
            assert(s2.drop_first() =~= rs.drop_first());
        } else {
            let s2 = seq![rs[0]] + set_rec(rs.drop_first(), a, r);
            assert(s2[0] == rs[0]);
            assert(s2.drop_first() =~= set_rec(rs.drop_first(), a, r));
            lemma_find_set_rec(rs.drop_first(), a, r, b);
        }
    }
}

/// Looks up the index of the record stored under `addr`, if any.
pub fn find_index<R>(records: &Vec<(Id, R)>, addr: &Id) -> (r: Option<usize>)
    ensures
        r matches Some(i) ==> {
            &&& i < records@.len()
            &&& records@[i as int].0@ == addr@
            &&& forall|k: int| 0 <= k < i ==> records@[k].0@ != addr@
            &&& find_rec(records@, addr@) == Some(records@[i as int].1)
        },
        r is None ==> {
            &&& find_rec(records@, addr@) is None
            &&& forall|k: int| 0 <= k < records@.len() ==> records@[k].0@ != addr@
        },
{
    let mut i: usize = 0;
    while i < records.len()
        invariant
            i <= records@.len(),
            forall|k: int| 0 <= k < i ==> records@[k].0@ != addr@,
        decreases records@.len() - i,
    {
        let entry = &records[i];
        if id_eq(&entry.0, addr) {
            proof {
                lemma_find_rec_found(records@, addr@, i as int);
            }
            return Some(i);
        }
        i = i + 1;
    }
    proof {
        lemma_find_rec_none(records@, addr@);
    }
    None
}

} // verus!
