//! The event loop and the proxies that send it events.
use crate::backend::Backend;
use crate::builder::{EventLoopBuilder, PlatformSpecificEventLoopAttributes};
use crate::control_flow::ControlFlow;
use crate::creation::LoopClaim;
use crate::run_state::{Event, LoopState, Phase, RunLoopError, RunStep};
use crate::window_target::{EventLoopWindowTarget, PlatformConnection};
use std::collections::VecDeque;
use std::marker::PhantomData;
use vstd::prelude::*;

verus! {

/// Provides a way to retrieve events from the system and from the proxies that
/// were created by the loop.
pub struct EventLoop<T: 'static> {
    id: u64,
    open: bool,
    pending: VecDeque<T>,
    control_flow: ControlFlow,
    disconnected: bool,
    phase: Phase,
    window_target: EventLoopWindowTarget<T>,
}

impl<T> View for EventLoop<T> {
    type V = LoopState<T>;

    closed spec fn view(&self) -> LoopState<T> {
        LoopState {
            id: self.id,
            open: self.open,
            pending: self.pending@,
            control_flow: self.control_flow,
            disconnected: self.disconnected,
            phase: self.phase,
            target: self.window_target@,
        }
    }
}

impl EventLoop<()> {
    /// Alias for `EventLoopBuilder::new().build(claim, platform)`.
    pub fn new(claim: LoopClaim, platform: PlatformConnection) -> (event_loop: EventLoop<()>)
        requires
            PlatformSpecificEventLoopAttributes::initial().allow(
                platform.backend,
                platform.on_main_thread,
            ),
        ensures
            event_loop@ == LoopState::<()>::created(claim@, platform.target()),
    {
        EventLoopBuilder::new().build(claim, platform)
    }
}

impl<T> EventLoop<T> {
    /// Alias for `EventLoopBuilder::<T>::with_user_event().build(claim, platform)`.
    pub fn with_user_event(claim: LoopClaim, platform: PlatformConnection) -> (event_loop:
        EventLoop<T>)
        requires
            PlatformSpecificEventLoopAttributes::initial().allow(
                platform.backend,
                platform.on_main_thread,
            ),
        ensures
            event_loop@ == LoopState::<T>::created(claim@, platform.target()),
    {
        EventLoopBuilder::<T>::with_user_event().build(claim, platform)
    }

    /// A new loop, known by `id`, on the window system that was connected to.
    pub(crate) fn connect(id: u64, platform: PlatformConnection) -> (event_loop: EventLoop<T>)
        ensures
            event_loop@ == LoopState::<T>::created(id, platform.target()),
    {
        EventLoop {
            id,
            open: true,
            pending: VecDeque::new(),
            control_flow: ControlFlow::default(),
            disconnected: false,
            phase: Phase::Idle,
            window_target: EventLoopWindowTarget::connect(platform),
        }
    }

    /// Begins a run of the loop: the control flow is reset to `Poll`.
    /// `next_step` says what to do from then on.
    pub fn run(&mut self)
        requires
            old(self)@.may_run(),
        ensures
            final(self)@ == old(self)@.after_run(),
    {
        self.control_flow = ControlFlow::default();
        self.disconnected = false;
        self.phase = Phase::Waiting;
    }

    /// Whether a run has begun and not yet stopped.
    pub fn is_running(&self) -> (running: bool)
        ensures
            running == self@.running(),
    {
        self.phase != Phase::Idle
    }

    /// Whether the loop may be run.
    pub fn may_run(&self) -> (may: bool)
        ensures
            may == self@.may_run(),
    {
        self.open && self.phase == Phase::Idle
    }

    /// The control flow that the handler is given with the next event.
    pub fn control_flow(&self) -> (flow: ControlFlow)
        ensures
            flow == self@.control_flow,
    {
        self.control_flow
    }

    /// Moves a running loop on and says what to do next.
    pub fn next_step(&mut self) -> (step: RunStep<T>)
        requires
            old(self)@.running(),
        ensures
            step == old(self)@.step(),
            final(self)@ == old(self)@.after_step(),
    {
        match self.phase {
            Phase::Iterating => match self.pending.pop_front() {
                Some(event) => RunStep::Dispatch(Event::UserEvent(event)),
                None => {
                    self.phase = Phase::Waiting;
                    RunStep::Dispatch(Event::AboutToWait)
                },
            },
            Phase::Waiting => match self.exit_code() {
                Some(code) => {
                    self.phase = Phase::Exiting(code);
                    RunStep::Dispatch(Event::LoopExiting)
                },
                None => match self.control_flow {
                    ControlFlow::Wait if self.pending.len() == 0 => RunStep::Suspend,
                    ControlFlow::WaitUntil(instant) if self.pending.len() == 0 => {
                        RunStep::SuspendUntil(instant)
                    },
                    _ => {
                        self.phase = Phase::Iterating;
                        RunStep::BeginIteration
                    },
                },
            },
            Phase::Exiting(code) => {
                self.phase = Phase::Idle;
                Self::ending(self.window_target.backend(), code)
            },
            Phase::Idle => RunStep::Stop(Ok(())),
        }
    }

    /// The code that the run is to exit with, where it is to exit.
    fn exit_code(&self) -> (code: Option<i32>)
        ensures
            code == self@.exit_code(),
    {
        match self.control_flow {
            ControlFlow::ExitWithCode(code) => Some(code),
            _ if self.disconnected => Some(1),
            _ => None,
        }
    }

    /// How a run ends that exits with `code`.
    fn ending(backend: Backend, code: i32) -> (step: RunStep<T>)
        ensures
            step == crate::run_state::ending::<T>(backend, code),
    {
        if !backend.run_returns() {
            RunStep::Leave
        } else if code == 0 || !backend.uses_exit_code() {
            RunStep::Stop(Ok(()))
        } else {
            RunStep::Stop(Err(RunLoopError::ExitFailure(code)))
        }
    }

    /// Takes over the control flow that the handler has left. An exit that was
    /// set before stays.
    pub fn handled(&mut self, left: ControlFlow)
        ensures
            final(self)@ == old(self)@.after_handled(left),
    {
        self.control_flow = self.control_flow.settle(left);
    }

    /// Tells a suspended loop that the window system has an event for it, or
    /// that the time it was to be suspended until is reached.
    pub fn resume(&mut self)
        ensures
            final(self)@ == old(self)@.after_resume(),
    {
        match (self.phase, self.exit_code()) {
            (Phase::Waiting, None) => {
                self.phase = Phase::Iterating;
            },
            _ => {},
        }
    }

    /// Tells the loop that the display server has gone away. A running loop on
    /// X11 or Wayland then exits when its iteration is over: with code 1, unless
    /// the handler has asked for a code of its own. The control flow that the
    /// handler is given stays what it was.
    pub fn display_disconnected(&mut self)
        ensures
            final(self)@ == old(self)@.after_disconnect(),
    {
        if self.is_running() && self.window_target.backend().has_display_server() {
            self.disconnected = true;
        }
    }

    /// Ends the existence of the loop. Its proxies can no longer send to it,
    /// and what they have sent and was not emitted is dropped.
    pub fn close(&mut self)
        ensures
            final(self)@ == old(self)@.after_close(),
    {
        self.open = false;
        self.pending.clear();
        self.phase = Phase::Idle;
    }

    /// Creates a proxy that can be used to send user events to this loop.
    pub fn create_proxy(&self) -> (proxy: EventLoopProxy<T>)
        ensures
            proxy@ == self@.id,
    {
        EventLoopProxy { loop_id: self.id, _marker: PhantomData }
    }

    /// The window target, to be changed.
    pub fn window_target_mut(&mut self) -> (target: &mut EventLoopWindowTarget<T>)
        ensures
            target@ == old(self)@.target,
            final(self)@ == (LoopState { target: final(target)@, ..old(self)@ }),
    {
        &mut self.window_target
    }

    /// Appends the event of a proxy of loop `id`, or hands it back.
    pub(crate) fn accept(&mut self, id: u64, event: T) -> (refused: Option<T>)
        ensures
            final(self)@ == old(self)@.after_send(id, event),
            refused == (if old(self)@.reached_by(id) {
                None
            } else {
                Some(event)
            }),
    {
        if self.open && self.id == id {
            self.pending.push_back(event);
            None
        } else {
            Some(event)
        }
    }

    /// How the loop shows when it is printed for debugging.
    pub fn debug_text(&self) -> (text: String)
        ensures
            text@ == "EventLoop { .. }"@,
    {
        "EventLoop { .. }".to_owned()
    }
}

impl<T> std::ops::Deref for EventLoop<T> {
    type Target = EventLoopWindowTarget<T>;

    fn deref(&self) -> (target: &EventLoopWindowTarget<T>)
        ensures
            target@ == self@.target,
    {
        &self.window_target
    }
}

/// Used to send custom events to the event loop that created it.
pub struct EventLoopProxy<T: 'static> {
    loop_id: u64,
    _marker: PhantomData<T>,
}

impl<T> View for EventLoopProxy<T> {
    type V = u64;

    /// The loop that the proxy was created by.
    closed spec fn view(&self) -> u64 {
        self.loop_id
    }
}

impl<T: 'static> Clone for EventLoopProxy<T> {
    fn clone(&self) -> (proxy: Self)
        ensures
            proxy@ == self@,
    {
        EventLoopProxy { loop_id: self.loop_id, _marker: PhantomData }
    }
}

impl<T: 'static> EventLoopProxy<T> {
    /// Sends an event to the loop that this proxy was created by. The loop
    /// emits it as `UserEvent(event)`.
    ///
    /// Returns an `Err` with the event if that loop no longer exists.
    pub fn send_event(&self, event_loop: &mut EventLoop<T>, event: T) -> (sent: Result<
        (),
        EventLoopClosed<T>,
    >)
        ensures
            final(event_loop)@ == old(event_loop)@.after_send(self@, event),
            sent == (if old(event_loop)@.reached_by(self@) {
                Ok(())
            } else {
                Err(EventLoopClosed(event))
            }),
    {
        match event_loop.accept(self.loop_id, event) {
            None => Ok(()),
            Some(event) => Err(EventLoopClosed(event)),
        }
    }

    /// How the proxy shows when it is printed for debugging.
    pub fn debug_text(&self) -> (text: String)
        ensures
            text@ == "EventLoopProxy { .. }"@,
    {
        "EventLoopProxy { .. }".to_owned()
    }
}

/// The error that is returned when a proxy attempts to wake up an event loop
/// that no longer exists. Contains the event that was to be sent.
#[derive(Copy, Clone, Debug, PartialEq, Eq, Hash)]
pub struct EventLoopClosed<T>(pub T);

impl<T> EventLoopClosed<T> {
    /// The message of the error.
    pub fn message(&self) -> (text: String)
        ensures
            text@ == "Tried to wake up a closed `EventLoop`"@,
    {
        "Tried to wake up a closed `EventLoop`".to_owned()
    }
}

} // verus!
