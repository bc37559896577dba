//! What each operation on an event loop brings about, and how one operation
//! follows upon another.
use crate::backend::Backend;
use crate::control_flow::ControlFlow;
use crate::laws::LoopOp;
use crate::run_state::{Event, LoopState, Phase, RunLoopError, RunStep};
use crate::window_target::TargetState;
use vstd::prelude::*;
use web_time::{Duration, Instant};

verus! {

/// A loop that has just been built exists, whatever the window system: it may
/// be run, nothing is pending, the proxies that it creates reach it, and what
/// they send is taken. Proxies of other loops do not reach it.
pub proof fn law_built_loop_is_ready<T>(id: u64, target: TargetState, event: T, other: u64)
    ensures
        ({
            let built = LoopState::<T>::created(id, target);
            &&& built.open
            &&& built.may_run()
            &&& !built.running()
            &&& built.phase == Phase::Idle
            &&& built.pending.len() == 0
            &&& built.control_flow == ControlFlow::Poll
            &&& !built.disconnected
            &&& built.id == id
            &&& built.target == target
            &&& built.reached_by(id)
            &&& built.reached_by(other) ==> other == id
            &&& built.after_send(id, event).pending == seq![event]
        }),
{
    assert(Seq::<T>::empty().push(event) == seq![event]);
}

/// A loop runs from the time it is run until the run is over, and may be run
/// when it exists and does not run.
pub proof fn law_when_a_loop_runs<T>(state: LoopState<T>)
    ensures
        state.running() <==> !(state.phase == Phase::Idle),
        state.may_run() <==> state.open && state.phase == Phase::Idle,
        state.after_run().running(),
        !state.after_run().may_run(),
        !state.after_close().running(),
        !state.after_close().may_run(),
{
}

/// Sending is taken if and only if the proxy was created by this loop and the
/// loop exists. An event that is taken comes last, behind all that is pending.
/// One that is not leaves the loop as it is. Nothing else changes.
pub proof fn law_sending<T>(state: LoopState<T>, id: u64, event: T)
    ensures
        state.reached_by(id) <==> state.open && state.id == id,
        ({
            let sent = state.after_send(id, event);
            &&& state.open && state.id == id ==> {
                &&& sent.pending.len() == state.pending.len() + 1
                &&& sent.pending.last() == event
                &&& sent.pending.drop_last() == state.pending
            }
            &&& !(state.open && state.id == id) ==> sent.pending == state.pending
            &&& sent.id == state.id
            &&& sent.open == state.open
            &&& sent.control_flow == state.control_flow
            &&& sent.disconnected == state.disconnected
            &&& sent.phase == state.phase
            &&& sent.target == state.target
        }),
{
    assert(state.pending.push(event).drop_last() == state.pending);
}

/// A new run starts over: with `Poll`, before its first iteration, and with a
/// display server. What was sent before it is still pending.
pub proof fn law_starting_a_run<T>(state: LoopState<T>)
    ensures
        ({
            let started = state.after_run();
            &&& started.control_flow == ControlFlow::Poll
            &&& !started.disconnected
            &&& started.phase == Phase::Waiting
            &&& started.pending == state.pending
            &&& started.id == state.id
            &&& started.open == state.open
            &&& started.target == state.target
        }),
{
}

/// What the handler leaves holds from then on, unless an exit was set before,
/// which stays with its code. Nothing else changes.
pub proof fn law_answer_of_the_handler<T>(state: LoopState<T>, left: ControlFlow)
    ensures
        ({
            let handled = state.after_handled(left);
            &&& match state.control_flow {
                ControlFlow::ExitWithCode(code) => handled.control_flow
                    == ControlFlow::ExitWithCode(code),
                ControlFlow::Poll => handled.control_flow == left,
                ControlFlow::Wait => handled.control_flow == left,
                ControlFlow::WaitUntil(_) => handled.control_flow == left,
            }
            &&& handled.pending == state.pending
            &&& handled.disconnected == state.disconnected
            &&& handled.phase == state.phase
            &&& handled.id == state.id
            &&& handled.open == state.open
            &&& handled.target == state.target
        }),
{
}

/// The same of the control flow alone, and: to hand back what was given changes
/// nothing, and of two answers the later one holds, but for an exit.
pub proof fn law_settling(before: ControlFlow, left: ControlFlow, next: ControlFlow)
    ensures
        before.settle(before) == before,
        before matches ControlFlow::ExitWithCode(code) ==> before.settle(left)
            == ControlFlow::ExitWithCode(code),
        !(before is ExitWithCode) ==> before.settle(left) == left,
        !(before is ExitWithCode) && !(left is ExitWithCode) ==> before.settle(left).settle(next)
            == next,
        !(before is ExitWithCode) && left is ExitWithCode ==> before.settle(left).settle(next)
            == left,
{
}

/// The window system, or the awaited time, begins an iteration of a loop that
/// is between two, unless the loop is to exit. Otherwise it changes nothing.
pub proof fn law_resuming<T>(state: LoopState<T>)
    ensures
        ({
            let resumed = state.after_resume();
            let exits = state.disconnected || state.control_flow is ExitWithCode;
            &&& state.phase == Phase::Waiting && !exits ==> resumed.phase == Phase::Iterating
            &&& state.phase != Phase::Waiting || exits ==> resumed.phase == state.phase
            &&& resumed.control_flow == state.control_flow
            &&& resumed.disconnected == state.disconnected
            &&& resumed.pending == state.pending
            &&& resumed.id == state.id
            &&& resumed.open == state.open
            &&& resumed.target == state.target
        }),
{
}

/// A running loop on X11 or Wayland can lose its display server, and no other
/// loop can. What the handler is given and what is pending stay.
pub proof fn law_losing_the_display_server<T>(state: LoopState<T>)
    ensures
        ({
            let lost = state.after_disconnect();
            let can = state.phase != Phase::Idle && match state.target.backend {
                Backend::X11 => true,
                Backend::Wayland => true,
                Backend::Windows => false,
                Backend::MacOs => false,
                Backend::Ios => false,
                Backend::Android => false,
                Backend::Web => false,
                Backend::Orbital => false,
            };
            &&& can ==> lost.disconnected
            &&& !can ==> lost.disconnected == state.disconnected
            &&& lost.control_flow == state.control_flow
            &&& lost.pending == state.pending
            &&& lost.phase == state.phase
            &&& lost.id == state.id
            &&& lost.open == state.open
            &&& lost.target == state.target
        }),
{
}

/// A loop that is closed no longer exists: no proxy reaches it, nothing is
/// pending, and it does not run.
pub proof fn law_closing<T>(state: LoopState<T>, id: u64)
    ensures
        ({
            let closed = state.after_close();
            &&& !closed.open
            &&& !closed.reached_by(id)
            &&& closed.pending.len() == 0
            &&& closed.phase == Phase::Idle
            &&& closed.id == state.id
            &&& closed.control_flow == state.control_flow
            &&& closed.disconnected == state.disconnected
            &&& closed.target == state.target
        }),
{
}

/// The code of a run that is to exit is that of the control flow; without one,
/// a lost display server makes it 1. No other run is to exit.
pub proof fn law_code_of_the_exit<T>(state: LoopState<T>)
    ensures
        state.control_flow matches ControlFlow::ExitWithCode(code) ==> state.exit_code() == Some(
            code,
        ),
        !(state.control_flow is ExitWithCode) && state.disconnected ==> state.exit_code() == Some(
            1i32,
        ),
        !(state.control_flow is ExitWithCode) && !state.disconnected ==> state.exit_code()
            == None::<i32>,
{
}

/// A step within an iteration emits what has been pending longest and takes it
/// away, or, with nothing pending, emits `AboutToWait`, which ends the
/// iteration, whatever the control flow. Nothing else changes.
pub proof fn law_step_of_an_iteration<T>(state: LoopState<T>)
    requires
        state.phase == Phase::Iterating,
    ensures
        ({
            let next = state.after_step();
            &&& state.pending.len() > 0 ==> {
                &&& state.step() == RunStep::Dispatch(Event::UserEvent(state.pending[0]))
                &&& seq![state.pending[0]] + next.pending == state.pending
                &&& next.phase == Phase::Iterating
            }
            &&& state.pending.len() == 0 ==> {
                &&& state.step() == RunStep::<T>::Dispatch(Event::AboutToWait)
                &&& next.pending.len() == 0
                &&& next.phase == Phase::Waiting
            }
            &&& next.control_flow == state.control_flow
            &&& next.disconnected == state.disconnected
            &&& next.id == state.id
            &&& next.open == state.open
            &&& next.target == state.target
        }),
{
    if state.pending.len() > 0 {
        assert(seq![state.pending[0]] + state.pending.drop_first() == state.pending);
    }
}

/// A step between two iterations goes by the control flow. An exit, or a lost
/// display server, emits `LoopExiting` and fixes the code. `Poll` begins an
/// iteration, and so does any event that is pending. `Wait` and `WaitUntil`
/// suspend the thread, and leave the loop between iterations.
pub proof fn law_step_between_iterations<T>(state: LoopState<T>)
    requires
        state.phase == Phase::Waiting,
    ensures
        ({
            let next = state.after_step();
            let idle = state.pending.len() == 0;
            &&& match state.control_flow {
                ControlFlow::ExitWithCode(code) => state.step() == RunStep::<T>::Dispatch(
                    Event::LoopExiting,
                ) && next.phase == Phase::Exiting(code),
                ControlFlow::Poll => !state.disconnected ==> state.step()
                    == RunStep::<T>::BeginIteration && next.phase == Phase::Iterating,
                ControlFlow::Wait => !state.disconnected ==> if idle {
                    state.step() == RunStep::<T>::Suspend && next.phase == Phase::Waiting
                } else {
                    state.step() == RunStep::<T>::BeginIteration && next.phase == Phase::Iterating
                },
                ControlFlow::WaitUntil(instant) => !state.disconnected ==> if idle {
                    state.step() == RunStep::<T>::SuspendUntil(instant) && next.phase
                        == Phase::Waiting
                } else {
                    state.step() == RunStep::<T>::BeginIteration && next.phase == Phase::Iterating
                },
            }
            &&& state.disconnected && !(state.control_flow is ExitWithCode) ==> state.step()
                == RunStep::<T>::Dispatch(Event::LoopExiting) && next.phase == Phase::Exiting(1)
            &&& next.pending == state.pending
            &&& next.control_flow == state.control_flow
            &&& next.disconnected == state.disconnected
            &&& next.id == state.id
            &&& next.open == state.open
            &&& next.target == state.target
        }),
{
}

/// The step after `LoopExiting` ends the run. It never returns on iOS and in a
/// browser. On Android it succeeds, whatever the code. Everywhere else it
/// reports the code: success for zero, and a failure with this very code for
/// any other. The loop may then be run again, if it exists.
pub proof fn law_last_step_of_a_run<T>(state: LoopState<T>, code: i32)
    requires
        state.phase == Phase::Exiting(code),
    ensures
        match state.target.backend {
            Backend::Ios => state.step() == RunStep::<T>::Leave,
            Backend::Web => state.step() == RunStep::<T>::Leave,
            Backend::Android => state.step() == RunStep::<T>::Stop(Ok(())),
            _ => if code == 0 {
                state.step() == RunStep::<T>::Stop(Ok(()))
            } else {
                state.step() == RunStep::<T>::Stop(Err(RunLoopError::ExitFailure(code)))
            },
        },
        ({
            let next = state.after_step();
            &&& next.phase == Phase::Idle
            &&& next.may_run() <==> state.open
            &&& next.pending == state.pending
            &&& next.control_flow == state.control_flow
            &&& next.disconnected == state.disconnected
            &&& next.id == state.id
            &&& next.open == state.open
            &&& next.target == state.target
        }),
{
}

/// The result of a run that the handler has asked to exit with a code: when the
/// run is over, however it came there, the caller has got that code. Zero is
/// success and any other code a failure, but for Android, where the code is
/// unused, and for iOS and browsers, where the caller gets nothing.
pub proof fn law_run_reports_its_code<T>(state: LoopState<T>, ops: Seq<LoopOp<T>>, code: i32)
    requires
        crate::laws::within_run(state, ops),
        state.control_flow == ControlFlow::ExitWithCode(code),
        state.after_all(ops).phase == Phase::Idle,
    ensures
        ({
            let steps = state.steps(ops);
            let backend = state.target.backend;
            let reported = steps[steps.len() - 1];
            &&& steps.len() >= 2
            &&& steps[steps.len() - 2] == RunStep::<T>::Dispatch(Event::LoopExiting)
            &&& reported == RunStep::<T>::Leave <==> (backend == Backend::Ios || backend
                == Backend::Web)
            &&& reported == RunStep::<T>::Stop(Ok(())) <==> (backend == Backend::Android || (code
                == 0 && backend != Backend::Ios && backend != Backend::Web))
            &&& reported == RunStep::<T>::Stop(Err(RunLoopError::ExitFailure(code))) <==> (code
                != 0 && backend != Backend::Android && backend != Backend::Ios && backend
                != Backend::Web)
        }),
{
    crate::laws::law_exit_ends_the_run(state, ops, code);
}

/// Two runs on the same backend that exit with different codes report
/// differently, wherever the code is used at all.
pub proof fn law_codes_are_told_apart<T>(
    first: LoopState<T>,
    second: LoopState<T>,
    one: i32,
    other: i32,
)
    requires
        first.phase == Phase::Exiting(one),
        second.phase == Phase::Exiting(other),
        first.target.backend == second.target.backend,
        first.target.backend != Backend::Android,
        first.target.backend != Backend::Ios,
        first.target.backend != Backend::Web,
    ensures
        first.step() == second.step() <==> one == other,
{
}

/// `AboutToWait` ends the iteration, whatever the control flow: the next step
/// is not part of it. Whatever the handler leaves, is sent or is reported
/// before that step, it begins an iteration, suspends the thread or comes to
/// the exit, as the control flow says that then holds. So `AboutToWait` is not
/// emitted twice without an iteration begun in between.
pub proof fn law_about_to_wait_ends_the_iteration<T>(state: LoopState<T>, ops: Seq<LoopOp<T>>)
    requires
        state.running(),
        state.step() == RunStep::<T>::Dispatch(Event::AboutToWait),
        crate::laws::without(ops, LoopOp::Step),
        crate::laws::without(ops, LoopOp::Resume),
        crate::laws::without(ops, LoopOp::Run),
        crate::laws::without(ops, LoopOp::Close),
    ensures
        state.phase == Phase::Iterating,
        state.after_step().phase == Phase::Waiting,
        ({
            let reached = state.after_step().after_all(ops);
            &&& reached.phase == Phase::Waiting
            &&& !(reached.step() is Dispatch) || reached.step() == RunStep::<T>::Dispatch(
                Event::LoopExiting,
            )
            &&& reached.step() == RunStep::<T>::Dispatch(Event::LoopExiting) <==> (
            reached.control_flow is ExitWithCode || reached.disconnected)
            &&& reached.control_flow == ControlFlow::Poll && !reached.disconnected ==> reached.step()
                == RunStep::<T>::BeginIteration
            &&& reached.control_flow == ControlFlow::Wait && !reached.disconnected
                && reached.pending.len() == 0 ==> reached.step() == RunStep::<T>::Suspend
            &&& reached.control_flow matches ControlFlow::WaitUntil(instant) ==> (
            !reached.disconnected && reached.pending.len() == 0 ==> reached.step()
                == RunStep::<T>::SuspendUntil(instant))
            &&& reached.pending.len() > 0 && !(reached.control_flow is ExitWithCode)
                && !reached.disconnected ==> reached.step() == RunStep::<T>::BeginIteration
        }),
{
    lemma_between_iterations(state.after_step(), ops);
}

proof fn lemma_between_iterations<T>(state: LoopState<T>, ops: Seq<LoopOp<T>>)
    requires
        state.phase == Phase::Waiting,
        crate::laws::without(ops, LoopOp::Step),
        crate::laws::without(ops, LoopOp::Resume),
        crate::laws::without(ops, LoopOp::Run),
        crate::laws::without(ops, LoopOp::Close),
    ensures
        state.after_all(ops).phase == Phase::Waiting,
    decreases ops.len(),
{
    if ops.len() > 0 {
        crate::laws::lemma_without_drop_last(ops, LoopOp::Step);
        crate::laws::lemma_without_drop_last(ops, LoopOp::Resume);
        crate::laws::lemma_without_drop_last(ops, LoopOp::Run);
        crate::laws::lemma_without_drop_last(ops, LoopOp::Close);
        lemma_between_iterations(state, ops.drop_last());
    }
}

/// A suspended loop stays suspended, in the same way, however often it is asked
/// for its next step, until something happens to it.
pub proof fn law_suspension_lasts<T>(state: LoopState<T>, times: nat)
    requires
        state.phase == Phase::Waiting,
        state.step() == RunStep::<T>::Suspend || state.step() is SuspendUntil,
    ensures
        state.after_all(Seq::new(times, |i: int| LoopOp::<T>::Step)) == state,
    decreases times,
{
    let all = Seq::new(times, |i: int| LoopOp::<T>::Step);
    if times > 0 {
        let fewer = (times - 1) as nat;
        law_suspension_lasts(state, fewer);
        assert(all.drop_last() == Seq::new(fewer, |i: int| LoopOp::<T>::Step));
    }
}

/// A run polls: with `Poll`, nothing sent and no exit, iterations follow upon
/// each other, and each is one `BeginIteration` and one `AboutToWait`.
pub proof fn law_polling_iterates<T>(state: LoopState<T>)
    requires
        state.phase == Phase::Waiting,
        state.control_flow == ControlFlow::Poll,
        !state.disconnected,
        state.pending.len() == 0,
    ensures
        state.step() == RunStep::<T>::BeginIteration,
        state.after_step().step() == RunStep::<T>::Dispatch(Event::AboutToWait),
        state.after_step().after_step() == state,
{
}

/// Where a deadline is given, the control flow waits for just that deadline,
/// and without one for events alone. Different deadlines are waited for
/// differently.
pub proof fn law_waiting_for_a_deadline(
    deadline: Option<Instant>,
    other: Option<Instant>,
)
    ensures
        deadline matches Some(instant) ==> ControlFlow::until(deadline) == ControlFlow::WaitUntil(
            instant,
        ),
        deadline is None ==> ControlFlow::until(deadline) == ControlFlow::Wait,
        ControlFlow::until(deadline) == ControlFlow::until(other) <==> deadline == other,
{
}

/// A timeout that does not overflow from `now` is waited for until the sum of
/// the two, and one that does is waited for without a limit.
pub proof fn law_waiting_for_a_timeout(now: Instant, timeout: Duration, flow: ControlFlow)
    requires
        flow.waits_from(now, timeout),
    ensures
        crate::clock::instant_checked_add(now, timeout) matches Some(deadline) ==> flow
            == ControlFlow::WaitUntil(deadline) && crate::clock::instant_nanos(deadline)
            == crate::clock::instant_nanos(now) + crate::clock::duration_nanos(timeout),
        crate::clock::instant_checked_add(now, timeout) is None ==> flow == ControlFlow::Wait,
{
}

} // verus!
