//! What every engine shares: the origin of a call and the arithmetic of blocks and balances.

use vstd::prelude::*;

verus! {

/// Where a call comes from: the root authority, an account that signed it, or nobody.
#[derive(Clone, Copy, PartialEq, Eq, Structural, Debug)]
pub enum RawOrigin {
    Root,
    Signed(u64),
    Unsigned,
}

/// The error of a call whose origin is not the one the call asks for.
#[derive(Clone, Copy, PartialEq, Eq, Structural, Debug)]
pub struct BadOrigin;

/// The account that signed the call, if one did.
pub open spec fn signer_of(origin: RawOrigin) -> Option<u64> {
    match origin {
        RawOrigin::Signed(account) => Some(account),
        _ => None,
    }
}

/// Accepts a signed origin and hands out the signing account.
pub fn ensure_signed(origin: RawOrigin) -> (res: Result<u64, BadOrigin>)
    ensures
        res == match signer_of(origin) {
            Some(account) => Ok::<u64, BadOrigin>(account),
            None => Err::<u64, BadOrigin>(BadOrigin),
        },
{
    match origin {
        RawOrigin::Signed(account) => Ok(account),
        _ => Err(BadOrigin),
    }
}

/// Accepts the root origin only.
pub fn ensure_root(origin: RawOrigin) -> (res: Result<(), BadOrigin>)
    ensures
        res.is_ok() <==> origin == RawOrigin::Root,
{
    match origin {
        RawOrigin::Root => Ok(()),
        _ => Err(BadOrigin),
    }
}

/// The value of `n` as a `u64`, held at the ends of the type's range.
pub open spec fn saturate(n: int) -> u64 {
    if n > u64::MAX {
        u64::MAX
    } else if n < 0 {
        0
    } else {
        n as u64
    }
}

/// The number of blocks from `since` to `now`; zero where `now` lies before `since`.
pub open spec fn blocks_between(since: u64, now: u64) -> nat {
    if now >= since {
        (now - since) as nat
    } else {
        0
    }
}

/// A count as a `u64`.
pub fn count_to_u64(count: usize) -> (n: u64)
    ensures
        n == count,
{
    count as u64
}

} // verus!
