//! Mutual exclusion around a value: the value is reached only while the lock
//! is held, and a lock that stays taken until its timeout runs out fails with
//! the mutex timeout error. A model of threads that increment one counter
//! under the lock shows that no update is lost, whatever the interleaving.
use vstd::prelude::*;
use crate::{RTResult, RTTError};
use crate::time::forever;

verus! {

/// A lock and the value it protects.
pub struct Mutex<T> {
    value: T,
    held: bool,
}

impl<T> Mutex<T> {
    /// The protected value.
    pub closed spec fn value(&self) -> T {
        self.value
    }

    /// Whether the lock is taken.
    pub closed spec fn is_held(&self) -> bool {
        self.held
    }

    /// A free lock around `value`.
    pub fn new(value: T) -> (r: Mutex<T>)
        ensures
            r.value() == value,
            !r.is_held(),
    {
        Mutex { value, held: false }
    }

    /// Takes the lock, waiting up to `tick` ticks (zero: not at all). A
    /// negative `tick` waits without bound, so the lock must be free.
    pub fn try_lock(&mut self, tick: i32) -> (r: RTResult<()>)
        requires
            !forever(tick) || !old(self).is_held(),
        ensures
            final(self).value() == old(self).value(),
            final(self).is_held(),
            r == (if old(self).is_held() {
                Err::<(), RTTError>(RTTError::MutexTakeTimeout)
            } else {
                Ok(())
            }),
    {
        if self.held {
            Err(RTTError::MutexTakeTimeout)
        } else {
            self.held = true;
            Ok(())
        }
    }

    /// Takes a free lock.
    pub fn lock(&mut self) -> (r: RTResult<()>)
        requires
            !old(self).is_held(),
        ensures
            final(self).value() == old(self).value(),
            final(self).is_held(),
            r is Ok,
    {
        self.try_lock(-1)
    }

    /// Gives the lock back.
    pub fn unlock(&mut self)
        requires
            old(self).is_held(),
        ensures
            final(self).value() == old(self).value(),
            !final(self).is_held(),
    {
        self.held = false;
    }

    /// Replaces the protected value; the lock must be held.
    pub fn set(&mut self, value: T)
        requires
            old(self).is_held(),
        ensures
            final(self).value() == value,
            final(self).is_held(),
    {
        self.value = value;
    }

    /// The protected value; the lock must be held.
    pub fn get(&self) -> (r: &T)
        requires
            self.is_held(),
        ensures
            *r == self.value(),
    {
        &self.value
    }
}

/// One thread of a counter workload: where it stands in its loop of
/// `lock; read; write; unlock` (0 to 3), the value it read, and how many
/// increments it still has to make.
pub struct Worker {
    pub pc: nat,
    pub local: int,
    pub left: nat,
}

/// Threads sharing one counter under one lock.
pub struct Run {
    pub holder: Option<nat>,
    pub value: int,
    pub workers: Seq<Worker>,
}

/// `threads` threads that will each increment a zero counter `n` times.
pub open spec fn start(threads: nat, n: nat) -> Run {
    Run {
        holder: None,
        value: 0,
        workers: Seq::new(threads, |i: int| Worker { pc: 0, local: 0, left: n }),
    }
}

/// Thread `t` takes one step; a thread that waits for the lock, or has
/// finished, stays where it is.
pub open spec fn step(r: Run, t: nat) -> Run {
    if t >= r.workers.len() {
        r
    } else {
        let w = r.workers[t as int];
        if w.pc == 0 {
            if w.left > 0 && r.holder is None {
                Run {
                    holder: Some(t),
                    workers: r.workers.update(t as int, Worker { pc: 1, ..w }),
                    ..r
                }
            } else {
                r
            }
        } else if w.pc == 1 {
            Run { workers: r.workers.update(t as int, Worker { pc: 2, local: r.value, ..w }), ..r }
        } else if w.pc == 2 {
            Run {
                value: w.local + 1,
                workers: r.workers.update(t as int, Worker { pc: 3, ..w }),
                ..r
            }
        } else {
            Run {
                holder: None,
                workers: r.workers.update(
                    t as int,
                    Worker { pc: 0, left: (w.left - 1) as nat, ..w },
                ),
                ..r
            }
        }
    }
}

/// The run after the threads step in the order `schedule` gives.
pub open spec fn run(r: Run, schedule: Seq<nat>) -> Run
    decreases schedule.len(),
{
    if schedule.len() == 0 {
        r
    } else {
        run(step(r, schedule[0]), schedule.drop_first())
    }
}

/// Every thread has made all its increments and let go of the lock.
pub open spec fn finished(r: Run) -> bool {
    forall|t: int| 0 <= t < r.workers.len() ==> #[trigger] r.workers[t].left == 0 && r.workers[t].pc == 0
}

/// Increments that the threads have completed, each out of `n`.
pub open spec fn done(ws: Seq<Worker>, n: nat) -> int
    decreases ws.len(),
{
    if ws.len() == 0 {
        0
    } else {
        done(ws.drop_last(), n) + (n - ws.last().left)
    }
}

spec fn holding_written(r: Run) -> int {
    match r.holder {
        Some(h) => if r.workers[h as int].pc == 3 { 1int } else { 0int },
        None => 0int,
    }
}

spec fn inv(r: Run, n: nat) -> bool {
    &&& forall|t: int| 0 <= t < r.workers.len() ==> #[trigger] r.workers[t].left <= n && r.workers[t].pc < 4
    &&& forall|t: int| 0 <= t < r.workers.len() && #[trigger] r.workers[t].pc != 0 ==> r.holder == Some(t as nat)
    &&& forall|t: int| 0 <= t < r.workers.len() && r.workers[t].pc != 0 ==> #[trigger] r.workers[t].left > 0
    &&& (r.holder matches Some(h) ==> h < r.workers.len() && r.workers[h as int].pc != 0)
    &&& (r.holder matches Some(h) ==> (r.workers[h as int].pc == 2 ==> r.workers[h as int].local == r.value))
    &&& r.value == done(r.workers, n) + holding_written(r)
}

proof fn lemma_done_update(ws: Seq<Worker>, n: nat, t: int, w: Worker)
    requires
        0 <= t < ws.len(),
    ensures
        done(ws.update(t, w), n) == done(ws, n) - (n - ws[t].left) + (n - w.left),
    decreases ws.len(),
{
    let us = ws.update(t, w);
    if t == ws.len() - 1 {
        assert(us.drop_last() =~= ws.drop_last());
    } else {
        lemma_done_update(ws.drop_last(), n, t, w);
        assert(us.drop_last() =~= ws.drop_last().update(t, w));
    }
}

proof fn lemma_done_all(ws: Seq<Worker>, n: nat, left: nat)
    requires
        forall|t: int| 0 <= t < ws.len() ==> #[trigger] ws[t].left == left,
    ensures
        done(ws, n) == ws.len() * (n - left),
    decreases ws.len(),
{
    if ws.len() > 0 {
        lemma_done_all(ws.drop_last(), n, left);
        let k = ws.len() - 1;
        assert(k * (n - left) + (n - left) == ws.len() * (n - left)) by (nonlinear_arith)
            requires
                k == ws.len() - 1,
        ;
    }
}

proof fn lemma_step_inv(r: Run, n: nat, t: nat)
    requires
        inv(r, n),
    ensures
        inv(step(r, t), n),
        step(r, t).workers.len() == r.workers.len(),
{
    if t < r.workers.len() {
        let w = r.workers[t as int];
        let s = step(r, t);
        if w.pc == 0 {
            if w.left > 0 && r.holder is None {
                lemma_done_update(r.workers, n, t as int, s.workers[t as int]);
            }
        } else {
            lemma_done_update(r.workers, n, t as int, s.workers[t as int]);
        }
    }
}

proof fn lemma_run_inv(r: Run, n: nat, schedule: Seq<nat>)
    requires
        inv(r, n),
    ensures
        inv(run(r, schedule), n),
        run(r, schedule).workers.len() == r.workers.len(),
    decreases schedule.len(),
{
    if schedule.len() > 0 {
        lemma_step_inv(r, n, schedule[0]);
        lemma_run_inv(step(r, schedule[0]), n, schedule.drop_first());
    }
}

/// No lost updates: however the scheduler interleaves `threads` threads that
/// each increment a shared counter `n` times under the lock, once all have
/// finished the counter holds `threads * n`.
pub proof fn lemma_no_lost_update(threads: nat, n: nat, schedule: Seq<nat>)
    requires
        finished(run(start(threads, n), schedule)),
    ensures
        run(start(threads, n), schedule).value == threads * n,
{
    let s = start(threads, n);
    lemma_done_all(s.workers, n, n);
    lemma_run_inv(s, n, schedule);
    let e = run(s, schedule);
    lemma_done_all(e.workers, n, 0);
    if let Some(h) = e.holder {
        assert(e.workers[h as int].left == 0);
    }
    assert(holding_written(e) == 0);
}

} // verus!
