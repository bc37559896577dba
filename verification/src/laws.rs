//! What holds of an event loop whatever is done to it, and in whatever order.
use crate::backend::Backend;
use crate::control_flow::ControlFlow;
use crate::run_state::{Event, LoopState, Phase, RunStep};
use crate::window_target::{PlatformConnection, TargetState};
use vstd::prelude::*;

verus! {

/// The operations on an event loop.
pub ghost enum LoopOp<T> {
    /// A proxy of loop `id` sends `event`.
    Send { id: u64, event: T },
    /// A run begins.
    Run,
    /// A running loop takes its next step.
    Step,
    /// The handler has left this control flow.
    Handled(ControlFlow),
    /// The window system has an event, or the awaited time is reached.
    Resume,
    /// The display server has gone away.
    Disconnect,
    /// The window target has been changed.
    Target(TargetState),
    /// The loop has ceased to exist.
    Close,
}

impl<T> LoopState<T> {
    /// The operation may be carried out.
    pub open spec fn allows(self, op: LoopOp<T>) -> bool {
        match op {
            LoopOp::Run => self.may_run(),
            LoopOp::Step => self.running(),
            _ => true,
        }
    }

    /// After the operation.
    pub open spec fn after(self, op: LoopOp<T>) -> LoopState<T> {
        match op {
            LoopOp::Send { id, event } => self.after_send(id, event),
            LoopOp::Run => self.after_run(),
            LoopOp::Step => self.after_step(),
            LoopOp::Handled(left) => self.after_handled(left),
            LoopOp::Resume => self.after_resume(),
            LoopOp::Disconnect => self.after_disconnect(),
            LoopOp::Target(target) => LoopState { target, ..self },
            LoopOp::Close => self.after_close(),
        }
    }

    /// After the operations, in this order.
    pub open spec fn after_all(self, ops: Seq<LoopOp<T>>) -> LoopState<T>
        decreases ops.len(),
    {
        if ops.len() == 0 {
            self
        } else {
            self.after_all(ops.drop_last()).after(ops.last())
        }
    }

    /// Each operation may be carried out when its turn comes.
    pub open spec fn allows_all(self, ops: Seq<LoopOp<T>>) -> bool
        decreases ops.len(),
    {
        ops.len() == 0 || self.allows_all(ops.drop_last()) && self.after_all(
            ops.drop_last(),
        ).allows(ops.last())
    }

    /// The events that were sent by the operations and reached the loop.
    pub open spec fn accepted(self, ops: Seq<LoopOp<T>>) -> Seq<T>
        decreases ops.len(),
    {
        if ops.len() == 0 {
            Seq::empty()
        } else {
            match ops.last() {
                LoopOp::Send { id, event } if self.after_all(ops.drop_last()).reached_by(
                    id,
                ) => self.accepted(ops.drop_last()).push(event),
                _ => self.accepted(ops.drop_last()),
            }
        }
    }

    /// The events that were emitted as `UserEvent` by the operations.
    pub open spec fn emitted(self, ops: Seq<LoopOp<T>>) -> Seq<T>
        decreases ops.len(),
    {
        if ops.len() == 0 {
            Seq::empty()
        } else {
            match (ops.last(), self.after_all(ops.drop_last()).step()) {
                (
                    LoopOp::Step,
                    RunStep::Dispatch(Event::UserEvent(event)),
                ) => self.emitted(ops.drop_last()).push(event),
                _ => self.emitted(ops.drop_last()),
            }
        }
    }

    /// The steps that the operations took, in order.
    pub open spec fn steps(self, ops: Seq<LoopOp<T>>) -> Seq<RunStep<T>>
        decreases ops.len(),
    {
        if ops.len() == 0 {
            Seq::empty()
        } else if ops.last() == LoopOp::<T>::Step {
            self.steps(ops.drop_last()).push(self.after_all(ops.drop_last()).step())
        } else {
            self.steps(ops.drop_last())
        }
    }
}

/// None of the operations is this one.
pub open spec fn without<T>(ops: Seq<LoopOp<T>>, op: LoopOp<T>) -> bool {
    forall|i: int| 0 <= i < ops.len() ==> #[trigger] ops[i] != op
}

pub(crate) proof fn lemma_without_drop_last<T>(ops: Seq<LoopOp<T>>, op: LoopOp<T>)
    requires
        ops.len() > 0,
        without(ops, op),
    ensures
        without(ops.drop_last(), op),
        ops.last() != op,
{
    assert forall|i: int| 0 <= i < ops.drop_last().len() implies #[trigger] ops.drop_last()[i]
        != op by {
        assert(ops[i] != op);
    }
}

/// Every operation keeps a valid loop valid.
pub proof fn law_operations_keep_validity<T>(state: LoopState<T>, ops: Seq<LoopOp<T>>)
    requires
        state.valid(),
        state.allows_all(ops),
    ensures
        state.after_all(ops).valid(),
    decreases ops.len(),
{
    if ops.len() > 0 {
        law_operations_keep_validity(state, ops.drop_last());
    }
}

/// Every state that a new loop can come to is valid.
pub proof fn law_loops_are_valid<T>(id: u64, target: TargetState, ops: Seq<LoopOp<T>>)
    requires
        LoopState::<T>::created(id, target).allows_all(ops),
    ensures
        LoopState::<T>::created(id, target).after_all(ops).valid(),
{
    law_operations_keep_validity(LoopState::<T>::created(id, target), ops);
}

/// A loop keeps its number, so a proxy that it created reaches it for as long
/// as it exists; and a loop that has ceased to exist does not come back.
pub proof fn law_proxies_reach_their_loop<T>(state: LoopState<T>, ops: Seq<LoopOp<T>>)
    ensures
        state.after_all(ops).id == state.id,
        state.after_all(ops).reached_by(state.id) <==> state.after_all(ops).open,
        state.open && without(ops, LoopOp::Close) ==> state.after_all(ops).open,
        !state.open ==> !state.after_all(ops).open,
    decreases ops.len(),
{
    if ops.len() > 0 {
        law_proxies_reach_their_loop(state, ops.drop_last());
        if without(ops, LoopOp::Close) {
            lemma_without_drop_last(ops, LoopOp::Close);
        }
    }
}

/// A loop that has ceased to exist takes no event, from whichever proxy, and
/// emits none.
pub proof fn law_closed_loop_refuses<T>(state: LoopState<T>, ops: Seq<LoopOp<T>>, id: u64)
    requires
        !state.open,
        state.valid(),
        state.allows_all(ops),
    ensures
        !state.after_all(ops).reached_by(id),
        state.accepted(ops) == Seq::<T>::empty(),
        state.emitted(ops) == Seq::<T>::empty(),
        !state.after_all(ops).running(),
    decreases ops.len(),
{
    law_proxies_reach_their_loop(state, ops);
    if ops.len() > 0 {
        law_closed_loop_refuses(state, ops.drop_last(), id);
        law_proxies_reach_their_loop(state, ops.drop_last());
    }
}

/// Every event that a proxy has sent to an existing loop is emitted once, in
/// the order of sending: at any time, what has been emitted followed by what
/// is pending is what was pending at first followed by what was sent since.
pub proof fn law_sent_events_are_emitted_in_order<T>(state: LoopState<T>, ops: Seq<LoopOp<T>>)
    requires
        without(ops, LoopOp::Close),
    ensures
        state.pending + state.accepted(ops) == state.emitted(ops) + state.after_all(ops).pending,
    decreases ops.len(),
{
    if ops.len() == 0 {
        assert(state.pending + Seq::<T>::empty() == Seq::<T>::empty() + state.pending);
    } else {
        lemma_without_drop_last(ops, LoopOp::Close);
        law_sent_events_are_emitted_in_order(state, ops.drop_last());
        let before = state.after_all(ops.drop_last());
        let accepted = state.accepted(ops.drop_last());
        let emitted = state.emitted(ops.drop_last());
        match ops.last() {
            LoopOp::Send { id, event } => {
                if before.reached_by(id) {
                    assert(state.pending + accepted.push(event) == (state.pending + accepted).push(
                        event,
                    ));
                    assert(emitted + before.pending.push(event) == (emitted + before.pending).push(
                        event,
                    ));
                }
            },
            LoopOp::Step => {
                match before.step() {
                    RunStep::Dispatch(Event::UserEvent(event)) => {
                        assert(emitted.push(event) + before.pending.drop_first() == emitted
                            + before.pending);
                    },
                    _ => {},
                }
            },
            _ => {},
        }
    }
}

/// Also where the loop ceases to exist, nothing is emitted that was not sent,
/// and nothing out of order.
pub proof fn law_emitted_events_were_sent<T>(state: LoopState<T>, ops: Seq<LoopOp<T>>)
    requires
        state.valid(),
        state.allows_all(ops),
    ensures
        state.emitted(ops).is_prefix_of(state.pending + state.accepted(ops)),
    decreases ops.len(),
{
    if without(ops, LoopOp::Close) {
        law_sent_events_are_emitted_in_order(state, ops);
    } else {
        law_emitted_events_were_sent(state, ops.drop_last());
        if ops.last() != LoopOp::<T>::Close {
            law_operations_keep_validity(state, ops.drop_last());
            let closed = choose|i: int| 0 <= i < ops.len() && ops[i] == LoopOp::<T>::Close;
            assert(ops.drop_last()[closed] == LoopOp::<T>::Close);
            lemma_closed_after(state, ops.drop_last());
        }
    }
}

proof fn lemma_closed_after<T>(state: LoopState<T>, ops: Seq<LoopOp<T>>)
    requires
        !without(ops, LoopOp::Close),
    ensures
        !state.after_all(ops).open,
    decreases ops.len(),
{
    let closed = choose|i: int| 0 <= i < ops.len() && ops[i] == LoopOp::<T>::Close;
    if closed < ops.len() - 1 {
        assert(ops.drop_last()[closed] == LoopOp::<T>::Close);
        lemma_closed_after(state, ops.drop_last());
    }
}

/// An exit is sticky: within a run, nothing that the handler leaves and
/// nothing else changes it, nor its code.
pub proof fn law_exit_is_sticky<T>(state: LoopState<T>, ops: Seq<LoopOp<T>>, code: i32)
    requires
        state.control_flow == ControlFlow::ExitWithCode(code),
        without(ops, LoopOp::Run),
    ensures
        state.after_all(ops).control_flow == ControlFlow::ExitWithCode(code),
    decreases ops.len(),
{
    if ops.len() > 0 {
        lemma_without_drop_last(ops, LoopOp::Run);
        law_exit_is_sticky(state, ops.drop_last(), code);
    }
}

/// None of the operations hands a control flow back or begins a run: the
/// handler is not called, or has not returned.
pub open spec fn without_answers<T>(ops: Seq<LoopOp<T>>) -> bool {
    forall|i: int| 0 <= i < ops.len() ==> !(#[trigger] ops[i] is Handled) && !(ops[i] is Run)
}

proof fn lemma_control_flow_unchanged<T>(state: LoopState<T>, ops: Seq<LoopOp<T>>)
    requires
        without_answers(ops),
    ensures
        state.after_all(ops).control_flow == state.control_flow,
    decreases ops.len(),
{
    if ops.len() > 0 {
        assert forall|i: int| 0 <= i < ops.drop_last().len() implies !(
        #[trigger] ops.drop_last()[i] is Handled) && !(ops.drop_last()[i] is Run) by {
            assert(ops[i] == ops.drop_last()[i]);
        }
        lemma_control_flow_unchanged(state, ops.drop_last());
        assert(!(ops[ops.len() - 1] is Handled));
    }
}

/// The control flow persists: but for an exit, what the handler leaves is what
/// it is given with the next event, whatever else happens in between.
pub proof fn law_control_flow_persists<T>(
    state: LoopState<T>,
    left: ControlFlow,
    ops: Seq<LoopOp<T>>,
)
    requires
        !(state.control_flow is ExitWithCode),
        without_answers(ops),
    ensures
        state.after_handled(left).after_all(ops).control_flow == left,
{
    lemma_control_flow_unchanged(state.after_handled(left), ops);
}

/// A run begins with `Poll`, whatever control flow an earlier run has left, and
/// therefore with an iteration. `Poll` is also what the handler is given when
/// it is called for the first time, whatever happens before.
pub proof fn law_run_resets_control_flow<T>(state: LoopState<T>, ops: Seq<LoopOp<T>>)
    requires
        without_answers(ops),
    ensures
        state.after_run().control_flow == ControlFlow::Poll,
        state.after_run().step() == RunStep::<T>::BeginIteration,
        state.after_run().after_all(ops).control_flow == ControlFlow::Poll,
{
    lemma_control_flow_unchanged(state.after_run(), ops);
}

/// What follows `AboutToWait` is up to the control flow. With `Poll` a new
/// iteration begins, whether or not there are events. With `Wait` and
/// `WaitUntil` the thread is suspended, unless an event is pending. An exit
/// emits `LoopExiting`, and so does any control flow where the display server
/// has gone away.
pub proof fn law_control_flow_decides<T>(state: LoopState<T>)
    requires
        state.phase == Phase::Waiting,
    ensures
        state.disconnected ==> state.step() == RunStep::<T>::Dispatch(Event::LoopExiting),
        !state.disconnected ==> match state.control_flow {
            ControlFlow::Poll => state.step() == RunStep::<T>::BeginIteration,
            ControlFlow::Wait => state.step() == if state.pending.len() == 0 {
                RunStep::<T>::Suspend
            } else {
                RunStep::<T>::BeginIteration
            },
            ControlFlow::WaitUntil(instant) => state.step() == if state.pending.len() == 0 {
                RunStep::<T>::SuspendUntil(instant)
            } else {
                RunStep::<T>::BeginIteration
            },
            ControlFlow::ExitWithCode(_) => state.step() == RunStep::<T>::Dispatch(
                Event::LoopExiting,
            ),
        },
{
}

/// A suspended loop is woken by an event that is sent to it, which it then
/// emits, and by the window system.
pub proof fn law_suspended_loop_is_woken<T>(state: LoopState<T>, event: T)
    requires
        state.open,
        state.phase == Phase::Waiting,
        state.step() == RunStep::<T>::Suspend || state.step() is SuspendUntil,
    ensures
        state.after_step() == state,
        state.after_send(state.id, event).step() == RunStep::<T>::BeginIteration,
        state.after_send(state.id, event).after_step().step() == RunStep::<T>::Dispatch(
            Event::UserEvent(event),
        ),
        state.after_resume().phase == Phase::Iterating,
{
}

/// None of the operations is an answer of the handler that asks for an exit.
pub open spec fn without_exits<T>(ops: Seq<LoopOp<T>>) -> bool {
    forall|i: int|
        0 <= i < ops.len() ==> (#[trigger] ops[i] matches LoopOp::Handled(left) ==> !(
        left is ExitWithCode))
}

proof fn lemma_without_exits_drop_last<T>(ops: Seq<LoopOp<T>>)
    requires
        ops.len() > 0,
        without_exits(ops),
    ensures
        without_exits(ops.drop_last()),
        ops.last() matches LoopOp::Handled(left) ==> !(left is ExitWithCode),
{
    assert forall|i: int| 0 <= i < ops.drop_last().len() implies (
    #[trigger] ops.drop_last()[i] matches LoopOp::Handled(left) ==> !(left is ExitWithCode)) by {
        assert(ops[i] == ops.drop_last()[i]);
    }
    assert(ops[ops.len() - 1] == ops.last());
}

/// What is pending is emitted without delay, in order, whatever the handler
/// leaves, is sent or is reported meanwhile, as long as no exit is asked for:
/// of the events that are pending, one more than `n` have been emitted when
/// more than `n + 1` steps were taken. When nothing is pending any more, the
/// iteration ends with `AboutToWait`.
pub proof fn law_pending_events_are_emitted<T>(state: LoopState<T>, ops: Seq<LoopOp<T>>, n: nat)
    requires
        state.phase == Phase::Iterating || state.phase == Phase::Waiting,
        state.exit_code() is None,
        without(ops, LoopOp::Run),
        without(ops, LoopOp::Close),
        without(ops, LoopOp::Disconnect),
        without_exits(ops),
        n < state.pending.len(),
        state.steps(ops).len() > n + 1,
    ensures
        state.emitted(ops).len() > n,
        state.emitted(ops)[n as int] == state.pending[n as int],
        ({
            let reached = state.after_all(ops);
            reached.phase == Phase::Iterating && reached.pending.len() == 0 ==> reached.step()
                == RunStep::<T>::Dispatch(Event::AboutToWait)
        }),
{
    lemma_emission_keeps_pace(state, ops);
    law_sent_events_are_emitted_in_order(state, ops);
    let emitted = state.emitted(ops);
    assert((state.pending + state.accepted(ops))[n as int] == state.pending[n as int]);
    assert((emitted + state.after_all(ops).pending)[n as int] == emitted[n as int]);
}

/// Until all that was pending at first has been emitted, every step but one
/// that begins the iteration emits an event.
proof fn lemma_emission_keeps_pace<T>(state: LoopState<T>, ops: Seq<LoopOp<T>>)
    requires
        state.phase == Phase::Iterating || state.phase == Phase::Waiting,
        state.exit_code() is None,
        without(ops, LoopOp::Run),
        without(ops, LoopOp::Close),
        without(ops, LoopOp::Disconnect),
        without_exits(ops),
    ensures
        ({
            let reached = state.after_all(ops);
            let emitted = state.emitted(ops).len();
            let taken = state.steps(ops).len();
            &&& reached.exit_code() is None
            &&& reached.phase == Phase::Iterating || reached.phase == Phase::Waiting
            &&& emitted < state.pending.len() ==> match reached.phase {
                Phase::Iterating => taken <= emitted + 1,
                _ => taken == 0,
            }
        }),
    decreases ops.len(),
{
    if ops.len() > 0 {
        lemma_without_drop_last(ops, LoopOp::Run);
        lemma_without_drop_last(ops, LoopOp::Close);
        lemma_without_drop_last(ops, LoopOp::Disconnect);
        lemma_without_exits_drop_last(ops);
        lemma_emission_keeps_pace(state, ops.drop_last());
        law_sent_events_are_emitted_in_order(state, ops.drop_last());
        let before = state.after_all(ops.drop_last());
        assert((state.pending + state.accepted(ops.drop_last())).len() == (state.emitted(
            ops.drop_last(),
        ) + before.pending).len());
    }
}

/// None of the operations moves the loop to another backend.
pub open spec fn keep_backend<T>(ops: Seq<LoopOp<T>>, backend: Backend) -> bool {
    forall|i: int|
        0 <= i < ops.len() ==> (#[trigger] ops[i] matches LoopOp::Target(target)
            ==> target.backend == backend)
}

proof fn lemma_keep_backend<T>(state: LoopState<T>, ops: Seq<LoopOp<T>>, backend: Backend)
    requires
        state.target.backend == backend,
        keep_backend(ops, backend),
    ensures
        state.after_all(ops).target.backend == backend,
        ops.len() > 0 ==> keep_backend(ops.drop_last(), backend),
    decreases ops.len(),
{
    if ops.len() > 0 {
        assert forall|i: int| 0 <= i < ops.drop_last().len() implies (
        #[trigger] ops.drop_last()[i] matches LoopOp::Target(target) ==> target.backend
            == backend) by {
            assert(ops[i] == ops.drop_last()[i]);
        }
        lemma_keep_backend(state, ops.drop_last(), backend);
        assert(ops[ops.len() - 1] == ops.last());
    }
}

/// An exit that is asked for in the middle of an iteration is come to, whatever
/// the handler leaves, is sent or is reported meanwhile: after more steps than
/// there are events to emit, the iteration is over.
pub proof fn law_exit_is_come_to<T>(state: LoopState<T>, ops: Seq<LoopOp<T>>)
    requires
        state.running(),
        state.exit_code() is Some,
        without(ops, LoopOp::Run),
        without(ops, LoopOp::Close),
        state.steps(ops).len() > state.pending.len() + state.accepted(ops).len(),
    ensures
        state.after_all(ops).phase != Phase::Iterating,
{
    lemma_way_to_the_exit(state, ops);
}

/// The operations take place within one run of the loop, which has not come to
/// its exit.
pub open spec fn within_run<T>(state: LoopState<T>, ops: Seq<LoopOp<T>>) -> bool {
    &&& state.phase == Phase::Iterating || state.phase == Phase::Waiting
    &&& without(ops, LoopOp::Run)
    &&& without(ops, LoopOp::Close)
    &&& keep_backend(ops, state.target.backend)
    &&& state.allows_all(ops)
}

/// The steps end a run that exits with `code`: the last event is `LoopExiting`,
/// and the last step reports the code, as far as the backend uses it.
pub open spec fn end_with<T>(steps: Seq<RunStep<T>>, backend: Backend, code: i32) -> bool {
    &&& steps.len() >= 2
    &&& steps[steps.len() - 2] == RunStep::<T>::Dispatch(Event::LoopExiting)
    &&& steps.last() == crate::run_state::ending::<T>(backend, code)
}

/// By these operations the run comes to an exit with `code`: it is over after
/// a bounded number of steps, and when it is over its steps end with the exit.
pub open spec fn comes_to_exit<T>(state: LoopState<T>, ops: Seq<LoopOp<T>>, code: i32) -> bool {
    let steps = state.steps(ops);
    let bound = state.pending.len() + state.accepted(ops).len() + 3;
    let over = !state.after_all(ops).running();
    &&& steps.len() <= bound
    &&& steps.len() == bound ==> over
    &&& over ==> end_with(steps, state.target.backend, code)
}

/// A run that is asked to exit with a code does so, whatever the handler
/// leaves, is sent or is reported meanwhile.
pub proof fn law_exit_ends_the_run<T>(state: LoopState<T>, ops: Seq<LoopOp<T>>, code: i32)
    requires
        within_run(state, ops),
        state.control_flow == ControlFlow::ExitWithCode(code),
    ensures
        comes_to_exit(state, ops, code),
{
    lemma_last_steps(state, ops, code);
    lemma_way_to_the_exit(state, ops);
}

/// Where the phases of a run that is to exit stand, by the steps taken.
proof fn lemma_way_to_the_exit<T>(state: LoopState<T>, ops: Seq<LoopOp<T>>)
    requires
        state.running(),
        state.exit_code() is Some,
        without(ops, LoopOp::Run),
        without(ops, LoopOp::Close),
    ensures
        ({
            let reached = state.after_all(ops);
            let taken = state.steps(ops).len();
            let events = state.pending.len() + state.accepted(ops).len();
            &&& reached.exit_code() is Some
            &&& match reached.phase {
                Phase::Iterating => taken + reached.pending.len() == events,
                Phase::Waiting => taken <= events + 1,
                Phase::Exiting(_) => taken <= events + 2,
                Phase::Idle => state.allows_all(ops) ==> taken <= events + 3,
            }
        }),
    decreases ops.len(),
{
    if ops.len() > 0 {
        lemma_without_drop_last(ops, LoopOp::Run);
        lemma_without_drop_last(ops, LoopOp::Close);
        lemma_way_to_the_exit(state, ops.drop_last());
    }
}

/// The run is to exit with `code`, and none of the operations changes that.
spec fn exits_with<T>(state: LoopState<T>, ops: Seq<LoopOp<T>>, code: i32) -> bool {
    ||| state.control_flow == ControlFlow::ExitWithCode(code)
    ||| code == 1 && state.disconnected && !(state.control_flow is ExitWithCode) && without_exits(
        ops,
    )
}

/// The last steps of a run that exits with a code, by the phase it is in.
proof fn lemma_last_steps<T>(state: LoopState<T>, ops: Seq<LoopOp<T>>, code: i32)
    requires
        within_run(state, ops),
        exits_with(state, ops, code),
    ensures
        ({
            let steps = state.steps(ops);
            let reached = state.after_all(ops);
            &&& reached.exit_code() == Some(code)
            &&& reached.control_flow is ExitWithCode <==> state.control_flow is ExitWithCode
            &&& match reached.phase {
                Phase::Exiting(exit) => exit == code && steps.len() >= 1 && steps.last()
                    == RunStep::<T>::Dispatch(Event::LoopExiting),
                Phase::Idle => end_with(steps, state.target.backend, code),
                _ => true,
            }
        }),
    decreases ops.len(),
{
    if ops.len() > 0 {
        lemma_without_drop_last(ops, LoopOp::Run);
        lemma_without_drop_last(ops, LoopOp::Close);
        lemma_keep_backend(state, ops, state.target.backend);
        lemma_keep_backend(state, ops.drop_last(), state.target.backend);
        if without_exits(ops) {
            lemma_without_exits_drop_last(ops);
        }
        lemma_last_steps(state, ops.drop_last(), code);
    }
}

/// When the display server of a running loop goes away before the loop has come
/// to an exit, the run is to exit: with the code that the handler has asked
/// for, or else with 1. What the handler is given does not change.
pub proof fn law_disconnect_exits<T>(state: LoopState<T>)
    requires
        state.phase == Phase::Iterating || state.phase == Phase::Waiting,
        state.target.backend.has_display_server(),
    ensures
        state.after_disconnect().exit_code() == match state.control_flow {
            ControlFlow::ExitWithCode(code) => Some(code),
            _ => Some(1i32),
        },
        state.after_disconnect().control_flow == state.control_flow,
        state.after_disconnect().phase == state.phase,
{
}

/// A run whose display server has gone away, and whose handler asks for no exit
/// of its own, exits with code 1.
pub proof fn law_disconnect_ends_the_run<T>(state: LoopState<T>, ops: Seq<LoopOp<T>>)
    requires
        within_run(state, ops),
        state.disconnected,
        !(state.control_flow is ExitWithCode),
        without_exits(ops),
    ensures
        comes_to_exit(state, ops, 1),
{
    lemma_last_steps(state, ops, 1);
    lemma_way_to_the_exit(state, ops);
}

/// On X11 and Wayland a new loop captures device events for focused windows and
/// ignores them for unfocused ones.
pub proof fn law_device_events_follow_focus(platform: PlatformConnection, focused: bool)
    requires
        platform.backend == Backend::X11 || platform.backend == Backend::Wayland,
    ensures
        platform.target().captures(focused) == focused,
{
}

} // verus!
