//! Counting semaphore: `release` adds one to the count, `take` removes one,
//! and a take that finds the count at zero when its timeout runs out fails
//! with the semaphore timeout error.
use vstd::prelude::*;
use crate::{RTResult, RTTError};
use crate::time::forever;

verus! {

/// Count after one release.
pub open spec fn released(count: nat) -> nat {
    count + 1
}

/// Count after `n` releases.
pub open spec fn released_n(count: nat, n: nat) -> nat
    decreases n,
{
    if n == 0 {
        count
    } else {
        released_n(released(count), (n - 1) as nat)
    }
}

/// Count and outcome of one take that no release can meet while it waits.
pub open spec fn take_step(count: nat) -> (nat, RTResult<()>) {
    if count > 0 {
        ((count - 1) as nat, Ok(()))
    } else {
        (count, Err(RTTError::SemaphoreTakeTimeout))
    }
}

/// Outcomes of `k` takes in a row.
pub open spec fn takes(count: nat, k: nat) -> Seq<RTResult<()>>
    decreases k,
{
    if k == 0 {
        Seq::empty()
    } else {
        seq![take_step(count).1] + takes(take_step(count).0, (k - 1) as nat)
    }
}

/// A counting semaphore.
pub struct Semaphore {
    count: u32,
}

impl View for Semaphore {
    type V = nat;

    closed spec fn view(&self) -> nat {
        self.count as nat
    }
}

impl Semaphore {
    /// A semaphore with count zero.
    pub fn new() -> (r: Semaphore)
        ensures
            r@ == 0,
    {
        Semaphore { count: 0 }
    }

    /// The current count.
    pub fn value(&self) -> (r: u32)
        ensures
            r == self@,
    {
        self.count
    }

    /// Adds one to the count, waking one waiter if any.
    pub fn release(&mut self)
        requires
            old(self)@ < u32::MAX,
        ensures
            final(self)@ == released(old(self)@),
    {
        self.count = self.count + 1;
    }

    /// Takes one unit without blocking.
    pub fn try_take(&mut self) -> (r: RTResult<()>)
        ensures
            (final(self)@, r) == take_step(old(self)@),
    {
        if self.count > 0 {
            self.count = self.count - 1;
            Ok(())
        } else {
            Err(RTTError::SemaphoreTakeTimeout)
        }
    }

    /// Takes one unit, waiting up to `tick` ticks (zero: not at all). A
    /// negative `tick` waits without bound, so it needs a unit to be there.
    pub fn take(&mut self, tick: i32) -> (r: RTResult<()>)
        requires
            !forever(tick) || old(self)@ > 0,
        ensures
            (final(self)@, r) == take_step(old(self)@),
    {
        self.try_take()
    }

    /// Takes one unit, waiting without bound; a unit must be there.
    pub fn take_wait_forever(&mut self) -> (r: RTResult<()>)
        requires
            old(self)@ > 0,
        ensures
            r is Ok,
            final(self)@ == old(self)@ - 1,
    {
        self.try_take()
    }
}

/// Counting: from a count of zero, `n` releases let exactly `n` takes succeed,
/// and the take after them fails with the semaphore timeout error.
pub proof fn lemma_semaphore_counting(n: nat)
    ensures
        released_n(0, n) == n,
        takes(released_n(0, n), n + 1) == Seq::new(n, |i: int| Ok::<(), RTTError>(())).push(
            Err(RTTError::SemaphoreTakeTimeout),
        ),
{
    lemma_released_n(0, n);
    lemma_takes(n);
}

proof fn lemma_released_n(count: nat, n: nat)
    ensures
        released_n(count, n) == count + n,
    decreases n,
{
    if n > 0 {
        lemma_released_n(count + 1, (n - 1) as nat);
    }
}

proof fn lemma_takes(n: nat)
    ensures
        takes(n, n + 1) =~= Seq::new(n, |i: int| Ok::<(), RTTError>(())).push(
            Err(RTTError::SemaphoreTakeTimeout),
        ),
    decreases n,
{
    if n > 0 {
        lemma_takes((n - 1) as nat);
        assert(takes(n, n + 1) == seq![Ok::<(), RTTError>(())] + takes((n - 1) as nat, n));
    } else {
        assert(takes(0, 1) == seq![Err::<(), RTTError>(RTTError::SemaphoreTakeTimeout)] + takes(0, 0));
    }
}

} // verus!
