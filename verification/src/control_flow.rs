//! What a running event loop is asked to do once an iteration is over.
use vstd::prelude::*;
use web_time::{Duration, Instant};

verus! {

/// Set by the event handler of a running loop. Says what the loop does after
/// `AboutToWait` has been emitted. Defaults to `Poll`.
///
/// A change persists from one call of the handler to the next within a run.
/// `ExitWithCode` cannot be unset once the handler has returned with it.
#[derive(Copy, Clone, Debug, PartialEq, Eq)]
pub enum ControlFlow {
    /// Begin a new iteration at once, whether or not there are new events.
    Poll,
    /// Suspend the thread until another event arrives.
    Wait,
    /// Suspend the thread until another event arrives or the time is reached.
    WaitUntil(Instant),
    /// Emit `LoopExiting` and stop the loop, with this exit code.
    ExitWithCode(i32),
}

impl ControlFlow {
    /// The exit that reports success: `ExitWithCode(0)`.
    pub fn exit() -> (flow: ControlFlow)
        ensures
            flow == ControlFlow::ExitWithCode(0),
    {
        ControlFlow::ExitWithCode(0)
    }

    /// The control flow that waits for `deadline`, or without a limit where
    /// there is none.
    pub open spec fn until(deadline: Option<Instant>) -> ControlFlow {
        match deadline {
            Some(instant) => ControlFlow::WaitUntil(instant),
            None => ControlFlow::Wait,
        }
    }

    /// This waits for `timeout`, counted from `now`: until the sum of the two,
    /// as `Instant::checked_add` gives it, or without a limit where that gives
    /// none.
    pub open spec fn waits_from(self, now: Instant, timeout: Duration) -> bool {
        let deadline = crate::clock::instant_checked_add(now, timeout);
        &&& call_ensures(Instant::checked_add, (&now, timeout), deadline)
        &&& self == ControlFlow::until(deadline)
    }

    /// What holds after the handler was given `self` and left `left`: the
    /// latter, unless `self` was an exit.
    pub open spec fn spec_settle(self, left: ControlFlow) -> ControlFlow {
        match self {
            ControlFlow::ExitWithCode(_) => self,
            _ => left,
        }
    }

    /// The control flow after the handler was given `self` and left `left`.
    /// An exit is sticky: whatever the handler leaves, it is reset to the
    /// exit, with the code that was set first.
    #[verifier::when_used_as_spec(spec_settle)]
    pub fn settle(self, left: ControlFlow) -> (settled: ControlFlow)
        ensures
            settled == self.spec_settle(left),
    {
        match self {
            ControlFlow::ExitWithCode(_) => self,
            _ => left,
        }
    }

    /// Sets this to `Poll`.
    pub fn set_poll(&mut self)
        ensures
            *final(self) == ControlFlow::Poll,
    {
        *self = ControlFlow::Poll;
    }

    /// Sets this to `Wait`.
    pub fn set_wait(&mut self)
        ensures
            *final(self) == ControlFlow::Wait,
    {
        *self = ControlFlow::Wait;
    }

    /// Sets this to `WaitUntil(instant)`.
    pub fn set_wait_until(&mut self, instant: Instant)
        ensures
            *final(self) == ControlFlow::WaitUntil(instant),
    {
        *self = ControlFlow::WaitUntil(instant);
    }

    /// Sets this to wait until a timeout, counted from now, has expired.
    /// Where that point in time cannot be represented this is set to `Wait`.
    pub fn set_wait_timeout(&mut self, timeout: Duration)
        ensures
            exists|now: Instant| #[trigger]
                call_ensures(Instant::now, (), now) && final(self).waits_from(now, timeout),
    {
        let now = Instant::now();
        self.set_wait_deadline(now.checked_add(timeout));
    }

    /// Sets this to wait until `deadline`, or to `Wait` where there is none.
    pub fn set_wait_deadline(&mut self, deadline: Option<Instant>)
        ensures
            *final(self) == ControlFlow::until(deadline),
    {
        match deadline {
            Some(instant) => self.set_wait_until(instant),
            None => self.set_wait(),
        }
    }

    /// Sets this to `ExitWithCode(code)`.
    pub fn set_exit_with_code(&mut self, code: i32)
        ensures
            *final(self) == ControlFlow::ExitWithCode(code),
    {
        *self = ControlFlow::ExitWithCode(code);
    }

    /// Sets this to the exit that reports success.
    pub fn set_exit(&mut self)
        ensures
            *final(self) == ControlFlow::ExitWithCode(0),
    {
        *self = ControlFlow::exit();
    }
}

impl Default for ControlFlow {
    fn default() -> (flow: Self)
        ensures
            flow == ControlFlow::Poll,
    {
        ControlFlow::Poll
    }
}

/// A timeout counts from the time at which it is set. Where the clock was read
/// as `now`, not earlier than `before` and not later than `after`, and the
/// timeout does not overflow from `after`, the deadline lies the timeout after
/// `now`: not earlier than the timeout after `before` and not later than the
/// timeout after `after`. A timeout of zero is no exception.
pub proof fn law_timeout_counts_from_now(
    before: Instant,
    now: Instant,
    after: Instant,
    timeout: Duration,
    flow: ControlFlow,
)
    requires
        crate::clock::instant_nanos(before) <= crate::clock::instant_nanos(now),
        crate::clock::instant_nanos(now) <= crate::clock::instant_nanos(after),
        crate::clock::instant_checked_add(after, timeout) is Some,
        flow.waits_from(now, timeout),
    ensures
        flow matches ControlFlow::WaitUntil(deadline) && {
            let length = crate::clock::duration_nanos(timeout);
            let position = crate::clock::instant_nanos(deadline);
            &&& position == crate::clock::instant_nanos(now) + length
            &&& crate::clock::instant_nanos(before) + length <= position
            &&& position <= crate::clock::instant_nanos(after) + length
        },
{
}

/// From one reading of the clock, a longer timeout gives no earlier deadline;
/// and where a timeout overflows, so does every longer one.
pub proof fn law_longer_timeouts_wait_longer(
    now: Instant,
    shorter: Duration,
    longer: Duration,
    first: ControlFlow,
    second: ControlFlow,
)
    requires
        crate::clock::duration_nanos(shorter) <= crate::clock::duration_nanos(longer),
        first.waits_from(now, shorter),
        second.waits_from(now, longer),
    ensures
        first matches ControlFlow::WaitUntil(earlier) ==> (
        second matches ControlFlow::WaitUntil(later) ==> crate::clock::instant_nanos(earlier)
            <= crate::clock::instant_nanos(later)),
        first == ControlFlow::Wait ==> second == ControlFlow::Wait,
{
}

} // verus!
