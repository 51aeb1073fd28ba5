//! Timeouts of blocking calls, and the policy that bounds every wait.
use vstd::prelude::*;

verus! {

/// Tick count that asks the kernel to wait without bound.
pub const WAITING_FOREVER: i32 = -1;

/// Tick count that asks for an immediate answer.
pub const WAITING_NO: i32 = 0;

/// A timeout of zero ticks: try once, never block.
pub open spec fn no_wait(tick: i32) -> bool {
    tick == 0
}

/// A negative timeout: block until the resource comes.
pub open spec fn forever(tick: i32) -> bool {
    tick < 0
}

/// Whether a blocking call must abort instead: it is made from interrupt
/// context (the interrupt nesting level is not zero), where blocking would
/// deadlock the system.
pub fn panic_on_atomic_context(irq_nest: u8) -> (must_abort: bool)
    ensures
        must_abort == (irq_nest != 0),
{
    irq_nest != 0
}

/// The state of one blocking call: its timeout and the ticks it has waited.
#[derive(Debug, Clone, Copy, PartialEq, Eq, Structural)]
pub struct Wait {
    pub tick: i32,
    pub waited: u32,
}

/// What a blocking call does at one tick.
#[derive(Debug, Clone, Copy, PartialEq, Eq, Structural)]
pub enum WaitAction {
    /// The resource is there: take it and return.
    Acquire,
    /// Sleep one more tick.
    Block,
    /// Give up and return the timeout error.
    TimedOut,
}

/// One tick of a blocking call.
pub open spec fn wait_step(w: Wait, available: bool) -> (Wait, WaitAction) {
    if available {
        (w, WaitAction::Acquire)
    } else if forever(w.tick) {
        (w, WaitAction::Block)
    } else if w.waited as int >= w.tick as int {
        (w, WaitAction::TimedOut)
    } else {
        (Wait { tick: w.tick, waited: (w.waited + 1) as u32 }, WaitAction::Block)
    }
}

/// The actions of a call that finds the resource missing at each of `k` ticks.
pub open spec fn starved(w: Wait, k: nat) -> Seq<WaitAction>
    decreases k,
{
    if k == 0 {
        Seq::empty()
    } else {
        let (next, a) = wait_step(w, false);
        seq![a] + starved(next, (k - 1) as nat)
    }
}

impl Wait {
    /// A fresh call with timeout `tick`.
    pub fn new(tick: i32) -> (r: Wait)
        ensures
            r.tick == tick,
            r.waited == 0,
    {
        Wait { tick, waited: 0 }
    }

    /// Decides the call's next action, given whether the resource is there.
    pub fn step(&mut self, available: bool) -> (r: WaitAction)
        requires
            old(self).waited as int <= old(self).tick as int || forever(old(self).tick),
        ensures
            (*final(self), r) == wait_step(*old(self), available),
            final(self).waited as int <= final(self).tick as int || forever(final(self).tick),
    {
        if available {
            WaitAction::Acquire
        } else if self.tick < 0 {
            WaitAction::Block
        } else if self.waited as i64 >= self.tick as i64 {
            WaitAction::TimedOut
        } else {
            self.waited = self.waited + 1;
            WaitAction::Block
        }
    }
}

/// Timeout bound: a call with timeout `tick >= 0` whose resource never comes
/// blocks for exactly `tick` ticks and then times out; a call that waits
/// forever never times out.
pub proof fn lemma_timeout_bound(tick: i32, k: nat)
    ensures
        tick >= 0 ==> starved(Wait { tick, waited: 0 }, tick as nat + 1) == Seq::new(
            tick as nat,
            |i: int| WaitAction::Block,
        ).push(WaitAction::TimedOut),
        forever(tick) ==> starved(Wait { tick, waited: 0 }, k) == Seq::new(
            k,
            |i: int| WaitAction::Block,
        ),
{
    if tick >= 0 {
        lemma_starved_bounded(tick, 0);
        assert(Seq::new((tick - 0) as nat, |i: int| WaitAction::Block) =~= Seq::new(
            tick as nat,
            |i: int| WaitAction::Block,
        ));
    }
    if forever(tick) {
        lemma_starved_forever(Wait { tick, waited: 0 }, k);
    }
}

proof fn lemma_starved_bounded(tick: i32, waited: u32)
    requires
        0 <= waited <= tick,
    ensures
        starved(Wait { tick, waited }, (tick - waited) as nat + 1) =~= Seq::new(
            (tick - waited) as nat,
            |i: int| WaitAction::Block,
        ).push(WaitAction::TimedOut),
    decreases tick - waited,
{
    let w = Wait { tick, waited };
    if waited < tick {
        lemma_starved_bounded(tick, (waited + 1) as u32);
        let rest = starved(Wait { tick, waited: (waited + 1) as u32 }, (tick - waited) as nat);
        assert(starved(w, (tick - waited) as nat + 1) == seq![WaitAction::Block] + rest);
    } else {
        assert(starved(w, 1) == seq![WaitAction::TimedOut] + starved(w, 0));
    }
}

proof fn lemma_starved_forever(w: Wait, k: nat)
    requires
        forever(w.tick),
    ensures
        starved(w, k) =~= Seq::new(k, |i: int| WaitAction::Block),
    decreases k,
{
    if k > 0 {
        lemma_starved_forever(w, (k - 1) as nat);
    }
}

} // verus!
