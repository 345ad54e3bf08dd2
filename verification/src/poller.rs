//! Polling: when to try again, and when to give up.
use crate::duration::Duration;
use vstd::prelude::*;

verus! {

/// What to do after an attempt that did not succeed.
#[derive(Debug, Clone, Copy)]
pub enum Tick {
    /// Give up.
    Stop,
    /// Try again at once.
    Again,
    /// Try again after that long.
    Wait(Duration),
}

/// What a `Tick` stands for: nothing, or how many nanoseconds to wait before the next attempt.
pub open spec fn tick_wait(tick: Tick) -> Option<nat> {
    match tick {
        Tick::Stop => None,
        Tick::Again => Some(0),
        Tick::Wait(d) => Some(d@),
    }
}

/// Trait for implementing the element polling strategy.
///
/// Each time the element condition is not met, the `tick()` method will be
/// called. Upon returning `Tick::Stop`, the polling loop will terminate.
pub trait ElementPoller: Sized {
    /// Whether the poller can take another tick.
    spec fn ready(&self) -> bool;

    /// Process the poller forward by one tick. The two spans say how long the polling has gone on
    /// when the tick begins and when it comes to waiting.
    fn tick(&mut self, elapsed: Duration, elapsed_later: Duration) -> Tick
        requires
            old(self).ready(),
    ;
}

/// Trait for returning a struct that implements ElementPoller.
///
/// The start() method will be called at the beginning of the polling loop.
pub trait IntoElementPoller: Sized {
    type Poller: ElementPoller;

    /// Start a new poller.
    fn start(&self) -> (r: Self::Poller)
        ensures
            r.ready(),
    ;
}

/// Poll up to the specified timeout, with attempts due at the specified
/// interval, counted from the first one.
/// If the previous poll attempt ended after the next was due, the next will
/// start immediately. Once the timeout is reached, there is no other attempt,
/// regardless of the actual number of polling attempts completed.
#[derive(Debug)]
pub struct ElementPollerWithTimeout {
    timeout: Duration,
    interval: Duration,
    cur_tries: u32,
}

/// When the attempt after `tries` others is due, in nanoseconds from the start.
pub open spec fn due(interval: Duration, tries: nat) -> nat {
    if interval@ * tries <= Duration::longest() {
        interval@ * tries
    } else {
        Duration::longest()
    }
}

impl ElementPollerWithTimeout {
    /// How long the polling goes on.
    pub closed spec fn timeout(&self) -> Duration {
        self.timeout
    }

    /// How far apart the attempts are.
    pub closed spec fn interval(&self) -> Duration {
        self.interval
    }

    /// How many attempts there were.
    pub closed spec fn tries(&self) -> nat {
        self.cur_tries as nat
    }

    /// Create a new `ElementPollerWithTimeout`.
    pub fn new(timeout: Duration, interval: Duration) -> (r: Self)
        ensures
            r.timeout() == timeout,
            r.interval() == interval,
            r.tries() == 0,
    {
        ElementPollerWithTimeout { timeout, interval, cur_tries: 0 }
    }

    /// Whether the attempts can still be counted.
    pub fn can_tick(&self) -> (r: bool)
        ensures
            r == self.ready(),
    {
        self.cur_tries < u32::MAX
    }
}

/// Whether a tick of a poller comes to `r`: nothing more once its timeout has passed, and else the
/// next attempt when it is due.
pub open spec fn ticks_to(
    before: ElementPollerWithTimeout,
    after: ElementPollerWithTimeout,
    elapsed: Duration,
    elapsed_later: Duration,
    r: Tick,
) -> bool {
    let due = due(before.interval(), before.tries() + 1);
    &&& after.tries() == before.tries() + 1
    &&& after.timeout() == before.timeout()
    &&& after.interval() == before.interval()
    &&& tick_wait(r) == (if elapsed@ >= before.timeout()@ {
        None::<nat>
    } else if elapsed_later@ < due {
        Some((due - elapsed_later@) as nat)
    } else {
        Some(0nat)
    })
}

impl Default for ElementPollerWithTimeout {
    fn default() -> (r: Self)
        ensures
            r.timeout()@ == 20 * 1_000_000_000,
            r.interval()@ == 500 * 1_000_000,
            r.tries() == 0,
    {
        Self::new(Duration::from_secs(20), Duration::from_millis(500))
    }
}

impl ElementPoller for ElementPollerWithTimeout {
    /// The attempts can still be counted.
    open spec fn ready(&self) -> bool {
        self.tries() < u32::MAX
    }

    fn tick(&mut self, elapsed: Duration, elapsed_later: Duration) -> (r: Tick)
        ensures
            ticks_to(*old(self), *final(self), elapsed, elapsed_later, r),
    {
        self.cur_tries = self.cur_tries + 1;
        if !elapsed.shorter_than(&self.timeout) {
            return Tick::Stop;
        }
        // The next poll is due no earlier than this long after the first poll started.
        let minimum_elapsed: Duration = self.interval.saturating_mul(self.cur_tries);
        if elapsed_later.shorter_than(&minimum_elapsed) {
            Tick::Wait(minimum_elapsed.minus(&elapsed_later))
        } else {
            Tick::Again
        }
    }
}

impl IntoElementPoller for ElementPollerWithTimeout {
    type Poller = ElementPollerWithTimeout;

    fn start(&self) -> (r: ElementPollerWithTimeout)
        ensures
            r.timeout() == self.timeout(),
            r.interval() == self.interval(),
            r.tries() == 0,
    {
        Self::new(self.timeout, self.interval)
    }
}

impl Clone for ElementPollerWithTimeout {
    fn clone(&self) -> (r: Self)
        ensures
            r == *self,
    {
        ElementPollerWithTimeout {
            timeout: self.timeout,
            interval: self.interval,
            cur_tries: self.cur_tries,
        }
    }
}

/// No polling, single attempt.
#[derive(Debug, Clone, Copy)]
pub struct ElementPollerNoWait;

impl ElementPoller for ElementPollerNoWait {
    open spec fn ready(&self) -> bool {
        true
    }

    fn tick(&mut self, elapsed: Duration, elapsed_later: Duration) -> (r: Tick)
        ensures
            r is Stop,
    {
        Tick::Stop
    }
}

impl IntoElementPoller for ElementPollerNoWait {
    type Poller = ElementPollerNoWait;

    fn start(&self) -> (r: ElementPollerNoWait) {
        ElementPollerNoWait
    }
}

/// Waiting as long as a tick says brings the next attempt no earlier than it is due: after as
/// many intervals as there were attempts.
pub proof fn lemma_attempts_are_apart(
    before: ElementPollerWithTimeout,
    after: ElementPollerWithTimeout,
    elapsed: Duration,
    elapsed_later: Duration,
    tick: Tick,
)
    requires
        ticks_to(before, after, elapsed, elapsed_later, tick),
        !(tick is Stop),
    ensures
        tick_wait(tick) matches Some(wait) && elapsed_later@ + wait >= due(
            after.interval(),
            after.tries(),
        ),
        elapsed@ < after.timeout()@,
{
}

/// Once its timeout has passed, a poller stops, and it does so whatever came before.
pub proof fn lemma_poller_stops(
    before: ElementPollerWithTimeout,
    after: ElementPollerWithTimeout,
    elapsed: Duration,
    elapsed_later: Duration,
    tick: Tick,
)
    requires
        ticks_to(before, after, elapsed, elapsed_later, tick),
        elapsed@ >= before.timeout()@,
    ensures
        tick is Stop,
{
}

/// The later an attempt, the later it is due.
pub proof fn lemma_due_grows(interval: Duration, a: nat, b: nat)
    requires
        a <= b,
    ensures
        due(interval, a) <= due(interval, b),
{
    assert(interval@ * a <= interval@ * b) by (nonlinear_arith)
        requires
            a <= b,
    ;
}

} // verus!
