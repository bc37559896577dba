//! The states of an event loop and what each operation does to them.
use crate::backend::Backend;
use crate::control_flow::ControlFlow;
use crate::window_target::TargetState;
use vstd::prelude::*;
use web_time::Instant;

verus! {

/// The events that the loop itself emits.
#[derive(Debug, PartialEq, Eq)]
pub enum Event<T> {
    /// Emitted for each event that was sent through a proxy.
    UserEvent(T),
    /// Emitted when the events of an iteration have been handled. The control
    /// flow that holds after it says what the loop does next.
    AboutToWait,
    /// The last event of a run.
    LoopExiting,
}

/// Why a run of the loop did not end in success.
#[derive(Copy, Clone, Debug, PartialEq, Eq, Structural)]
pub enum RunLoopError {
    /// The loop was asked to exit with this code, which is not zero.
    ExitFailure(i32),
}

/// What whoever drives a running loop has to do next.
#[derive(Debug, PartialEq, Eq)]
pub enum RunStep<T> {
    /// Hand the event to the handler.
    Dispatch(Event<T>),
    /// A new iteration has begun: hand over what the window system has ready.
    BeginIteration,
    /// Suspend the thread until another event arrives.
    Suspend,
    /// Suspend the thread until another event arrives or the time is reached.
    SuspendUntil(Instant),
    /// The run is over and returns this to its caller.
    Stop(Result<(), RunLoopError>),
    /// The run is over and, on this backend, never returns to its caller.
    Leave,
}

/// Where a loop stands.
#[derive(Copy, Clone, Debug, PartialEq, Eq, Structural)]
pub enum Phase {
    /// Not running.
    Idle,
    /// An iteration is under way.
    Iterating,
    /// `AboutToWait` has been emitted, or the run has just begun.
    Waiting,
    /// `LoopExiting` has been emitted. The run ends with this code.
    Exiting(i32),
}

/// The state of an event loop.
pub ghost struct LoopState<T> {
    /// The number by which the loop and its proxies know each other.
    pub id: u64,
    /// The loop exists.
    pub open: bool,
    /// The events that were sent through proxies and not yet emitted, in the
    /// order in which they were sent.
    pub pending: Seq<T>,
    /// What the handler was last given or has last left.
    pub control_flow: ControlFlow,
    /// The display server has gone away during this run.
    pub disconnected: bool,
    pub phase: Phase,
    pub target: TargetState,
}

/// How a run ends that exits with `code`. On some backends it does not return,
/// and on some the code is not used.
pub open spec fn ending<T>(backend: Backend, code: i32) -> RunStep<T> {
    if !backend.run_returns() {
        RunStep::Leave
    } else if code == 0 || !backend.uses_exit_code() {
        RunStep::Stop(Ok(()))
    } else {
        RunStep::Stop(Err(RunLoopError::ExitFailure(code)))
    }
}

impl<T> LoopState<T> {
    /// The state of a loop that has just been created.
    pub open spec fn created(id: u64, target: TargetState) -> LoopState<T> {
        LoopState {
            id,
            open: true,
            pending: Seq::empty(),
            control_flow: ControlFlow::Poll,
            disconnected: false,
            phase: Phase::Idle,
            target,
        }
    }

    pub open spec fn running(self) -> bool {
        self.phase != Phase::Idle
    }

    /// The loop may be run.
    pub open spec fn may_run(self) -> bool {
        self.open && !self.running()
    }

    /// The state is one that a loop can come to: only an open loop runs or
    /// holds events, and the code that a run ends with is that of the exit, or
    /// that of a lost display server.
    pub open spec fn valid(self) -> bool {
        &&& !self.open ==> self.phase == Phase::Idle && self.pending.len() == 0
        &&& self.phase matches Phase::Exiting(code) ==> self.control_flow
            == ControlFlow::ExitWithCode(code) || self.disconnected && code == 1
    }

    /// The code that the run is to exit with, where it is to exit: that of the
    /// control flow, or else 1 where the display server has gone away.
    pub open spec fn exit_code(self) -> Option<i32> {
        match self.control_flow {
            ControlFlow::ExitWithCode(code) => Some(code),
            _ if self.disconnected => Some(1),
            _ => None,
        }
    }

    /// A proxy that was created by loop `id` reaches this loop.
    pub open spec fn reached_by(self, id: u64) -> bool {
        self.open && self.id == id
    }

    /// After `event` was sent through a proxy of loop `id`.
    pub open spec fn after_send(self, id: u64, event: T) -> LoopState<T> {
        if self.reached_by(id) {
            LoopState { pending: self.pending.push(event), ..self }
        } else {
            self
        }
    }

    /// After a run has begun.
    pub open spec fn after_run(self) -> LoopState<T> {
        LoopState {
            control_flow: ControlFlow::Poll,
            disconnected: false,
            phase: Phase::Waiting,
            ..self
        }
    }

    /// After the handler has left `left` as the control flow.
    pub open spec fn after_handled(self, left: ControlFlow) -> LoopState<T> {
        LoopState { control_flow: self.control_flow.settle(left), ..self }
    }

    /// After the window system has reported an event, or the time that the
    /// loop was to be suspended until is reached.
    pub open spec fn after_resume(self) -> LoopState<T> {
        if self.phase == Phase::Waiting && self.exit_code() is None {
            LoopState { phase: Phase::Iterating, ..self }
        } else {
            self
        }
    }

    /// After the display server has gone away, on the backends that have one.
    pub open spec fn after_disconnect(self) -> LoopState<T> {
        if self.running() && self.target.backend.has_display_server() {
            LoopState { disconnected: true, ..self }
        } else {
            self
        }
    }

    /// After the loop has ceased to exist.
    pub open spec fn after_close(self) -> LoopState<T> {
        LoopState { open: false, pending: Seq::empty(), phase: Phase::Idle, ..self }
    }

    /// What a running loop does next.
    pub open spec fn step(self) -> RunStep<T> {
        match self.phase {
            Phase::Iterating => if self.pending.len() > 0 {
                RunStep::Dispatch(Event::UserEvent(self.pending[0]))
            } else {
                RunStep::Dispatch(Event::AboutToWait)
            },
            Phase::Waiting => match self.control_flow {
                _ if self.exit_code() is Some => RunStep::Dispatch(Event::LoopExiting),
                ControlFlow::Wait if self.pending.len() == 0 => RunStep::Suspend,
                ControlFlow::WaitUntil(instant) if self.pending.len() == 0 => {
                    RunStep::SuspendUntil(instant)
                },
                _ => RunStep::BeginIteration,
            },
            Phase::Exiting(code) => ending(self.target.backend, code),
            Phase::Idle => RunStep::Stop(Ok(())),
        }
    }

    /// After a running loop has taken its next step.
    pub open spec fn after_step(self) -> LoopState<T> {
        match self.step() {
            RunStep::Dispatch(Event::UserEvent(_)) => LoopState {
                pending: self.pending.drop_first(),
                ..self
            },
            RunStep::Dispatch(Event::AboutToWait) => LoopState { phase: Phase::Waiting, ..self },
            RunStep::Dispatch(Event::LoopExiting) => LoopState {
                phase: Phase::Exiting(self.exit_code()->0),
                ..self
            },
            RunStep::BeginIteration => LoopState { phase: Phase::Iterating, ..self },
            RunStep::Suspend | RunStep::SuspendUntil(_) => self,
            RunStep::Stop(_) | RunStep::Leave => LoopState { phase: Phase::Idle, ..self },
        }
    }
}

} // verus!
