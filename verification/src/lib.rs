use vstd::prelude::*;

pub mod counter;
pub mod pda;
pub mod records;
pub mod token;

verus! {

/// An operation's outcome with its staged payload dropped: what happened,
/// not what was handed back.
pub open spec fn outcome<T, E>(r: Result<T, E>) -> Result<(), E> {
    match r {
        Result::Ok(_) => Result::Ok(()),
        Result::Err(e) => Result::Err(e),
    }
}

/// A 32-byte identity: an account address or public key on the ledger.
pub type Id = [u8; 32];

/// Compares two identities byte by byte.
pub fn id_eq(a: &Id, b: &Id) -> (r: bool)
    ensures
        r == (a@ == b@),
{
    let mut i: usize = 0;
    while i < 32
        invariant
            i <= 32,
            forall|k: int| 0 <= k < i ==> a@[k] == b@[k],
        decreases 32 - i,
    {
        if a[i] != b[i] {
            return false;
        }
        i = i + 1;
    }
    proof {
        assert(a@ =~= b@);
    }
    true
}

} // verus!
