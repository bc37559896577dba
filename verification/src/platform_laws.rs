//! What the window system, the options of a loop and the numbering of loops and
//! requests bring about.
use crate::backend::{Backend, UnknownBackend};
use crate::builder::PlatformSpecificEventLoopAttributes;
use crate::creation::Creation;
use crate::device_events::DeviceEvents;
use crate::window_target::{MonitorHandle, PlatformConnection, TargetState};
use vstd::prelude::*;

verus! {

/// A device event is captured always, never, or while the window is focused, as
/// the setting says.
pub proof fn law_capturing(allowed: DeviceEvents, focused: bool)
    ensures
        allowed == DeviceEvents::Always ==> allowed.captures(focused),
        allowed == DeviceEvents::Never ==> !allowed.captures(focused),
        allowed == DeviceEvents::WhenFocused ==> allowed.captures(focused) == focused,
{
}

/// On X11, on Windows and in a browser the program gets the setting that it asks
/// for, and device events are captured by it. On every other backend the
/// setting, and with it what is captured, stays what it was. Nothing else
/// changes.
pub proof fn law_listening(target: TargetState, allowed: DeviceEvents, focused: bool)
    ensures
        ({
            let listening = target.after_listen(allowed);
            let asked = target.backend == Backend::X11 || target.backend == Backend::Windows
                || target.backend == Backend::Web;
            &&& asked ==> listening.device_events == Some(allowed)
            &&& asked ==> (listening.captures(focused) <==> (allowed == DeviceEvents::Always || (
            allowed == DeviceEvents::WhenFocused && focused)))
            &&& !asked ==> listening.device_events == target.device_events
            &&& !asked ==> listening.captures(focused) == target.captures(focused)
            &&& listening.backend == target.backend
            &&& listening.monitors == target.monitors
            &&& listening.primary == target.primary
        }),
{
}

/// Of two requests the later one holds, and to repeat one changes nothing.
pub proof fn law_later_request_holds(
    target: TargetState,
    first: DeviceEvents,
    second: DeviceEvents,
)
    ensures
        target.after_listen(first).after_listen(second) == target.after_listen(second),
        target.after_listen(first).after_listen(first) == target.after_listen(first),
{
}

/// Device events are captured by the setting, or, where there is none, all of
/// them.
pub proof fn law_capturing_by_the_setting(target: TargetState, focused: bool)
    ensures
        target.device_events == Some(DeviceEvents::Always) ==> target.captures(focused),
        target.device_events == Some(DeviceEvents::Never) ==> !target.captures(focused),
        target.device_events == Some(DeviceEvents::WhenFocused) ==> target.captures(focused)
            == focused,
        target.device_events is None ==> target.captures(focused),
{
}

/// A new loop sees the window system as it was found, and captures device
/// events while a window is focused, on the backends that have a setting of it.
pub proof fn law_new_target(platform: PlatformConnection)
    ensures
        platform.target().backend == platform.backend,
        platform.target().monitors == platform.monitors@,
        platform.target().primary == platform.primary,
        match platform.backend {
            Backend::X11 | Backend::Wayland | Backend::Windows | Backend::Web => {
                platform.target().device_events == Some(DeviceEvents::WhenFocused)
            },
            Backend::MacOs | Backend::Ios | Backend::Android | Backend::Orbital => {
                platform.target().device_events is None
            },
        },
{
}

/// The primary monitor is the one that the window system names, whichever
/// monitors are listed, and there is none where it names none, nor on Wayland.
pub proof fn law_primary_monitor(target: TargetState)
    ensures
        target.backend != Backend::Wayland ==> (target.primary matches Some(inner)
            ==> target.primary_monitor() matches Some(handle) && handle.inner == inner),
        target.primary is None ==> target.primary_monitor() is None,
        target.backend == Backend::Wayland ==> target.primary_monitor() is None,
{
}

/// Two targets that name the same primary monitor report the same one, whatever
/// else they hold, if neither or both are on Wayland.
pub proof fn law_primary_monitor_alone_counts(first: TargetState, second: TargetState)
    requires
        first.primary == second.primary,
        first.backend == Backend::Wayland <==> second.backend == Backend::Wayland,
    ensures
        first.primary_monitor() == second.primary_monitor(),
{
}

/// The list of monitors has one handle for each monitor of the window system,
/// in the same order. So no monitor is lost and none is made up, and two lists
/// of handles are the same only for the same monitors.
pub proof fn law_monitors_are_listed(monitors: Seq<u64>, other: Seq<u64>)
    ensures
        ({
            let handles = crate::window_target::handles(monitors);
            &&& handles.len() == monitors.len()
            &&& forall|i: int| 0 <= i < monitors.len() ==> (#[trigger] handles[i]).inner == monitors[i]
            &&& forall|inner: u64|
                monitors.contains(inner) <==> #[trigger] handles.contains(MonitorHandle { inner })
        }),
        crate::window_target::handles(monitors) == crate::window_target::handles(other) <==> monitors
            == other,
{
    let handles = crate::window_target::handles(monitors);
    assert forall|inner: u64| monitors.contains(inner) implies #[trigger] handles.contains(
        MonitorHandle { inner },
    ) by {
        let i = choose|i: int| 0 <= i < monitors.len() && monitors[i] == inner;
        assert(handles[i] == MonitorHandle { inner });
    }
    assert forall|inner: u64| #[trigger] handles.contains(MonitorHandle { inner }) implies
        monitors.contains(inner) by {
        let i = choose|i: int| 0 <= i < handles.len() && handles[i] == MonitorHandle { inner };
        assert(monitors[i] == inner);
    }
    if handles == crate::window_target::handles(other) {
        assert(handles.len() == monitors.len());
        assert(crate::window_target::handles(other).len() == other.len());
        assert forall|i: int| 0 <= i < monitors.len() implies monitors[i] == other[i] by {
            assert(handles[i].inner == monitors[i]);
            assert(crate::window_target::handles(other)[i].inner == other[i]);
        }
        assert(monitors == other);
    }
}

/// The monitors that the window system reports take the place of those known
/// before, and nothing else changes.
pub proof fn law_monitors_change(target: TargetState, monitors: Seq<u64>, primary: Option<u64>)
    ensures
        target.after_monitors_changed(monitors, primary).monitors == monitors,
        target.after_monitors_changed(monitors, primary).primary == primary,
        target.after_monitors_changed(monitors, primary).backend == target.backend,
        target.after_monitors_changed(monitors, primary).device_events == target.device_events,
{
}

/// What the backends differ in, one by one.
pub proof fn law_backends(backend: Backend)
    ensures
        match backend {
            Backend::X11 => backend.filters_device_events() && backend.has_device_event_setting()
                && backend.has_primary_monitor() && backend.uses_exit_code()
                && backend.run_returns() && backend.has_display_server(),
            Backend::Wayland => !backend.filters_device_events()
                && backend.has_device_event_setting() && !backend.has_primary_monitor()
                && backend.uses_exit_code() && backend.run_returns()
                && backend.has_display_server(),
            Backend::Windows => backend.filters_device_events()
                && backend.has_device_event_setting() && backend.has_primary_monitor()
                && backend.uses_exit_code() && backend.run_returns()
                && !backend.has_display_server(),
            Backend::MacOs | Backend::Orbital => !backend.filters_device_events()
                && !backend.has_device_event_setting() && backend.has_primary_monitor()
                && backend.uses_exit_code() && backend.run_returns()
                && !backend.has_display_server(),
            Backend::Ios => !backend.filters_device_events()
                && !backend.has_device_event_setting() && backend.has_primary_monitor()
                && !backend.uses_exit_code() && !backend.run_returns()
                && !backend.has_display_server(),
            Backend::Android => !backend.filters_device_events()
                && !backend.has_device_event_setting() && backend.has_primary_monitor()
                && !backend.uses_exit_code() && backend.run_returns()
                && !backend.has_display_server(),
            Backend::Web => backend.filters_device_events() && backend.has_device_event_setting()
                && backend.has_primary_monitor() && !backend.uses_exit_code()
                && !backend.run_returns() && !backend.has_display_server(),
        },
{
}

/// The variable decides which backends are tried: one where it names one,
/// Wayland and then X11 where it is not set. It is refused if and only if it is
/// set to anything else.
pub proof fn law_unix_variable(variable: Option<Seq<char>>)
    ensures
        ({
            let tried = Backend::spec_unix_candidates(variable);
            &&& variable is None ==> tried == Ok::<Seq<Backend>, UnknownBackend>(
                seq![Backend::Wayland, Backend::X11],
            )
            &&& variable == Some("x11"@) ==> tried == Ok::<Seq<Backend>, UnknownBackend>(
                seq![Backend::X11],
            )
            &&& variable == Some("wayland"@) ==> tried == Ok::<Seq<Backend>, UnknownBackend>(
                seq![Backend::Wayland],
            )
            &&& tried is Err <==> (variable matches Some(name) && name != "x11"@ && name
                != "wayland"@)
        }),
{
    reveal_strlit("x11");
    reveal_strlit("wayland");
    assert("x11"@.len() != "wayland"@.len());
}

/// Of the candidates that were tried, the loop runs on the one that connected
/// and that none before it did; and on none if none connected.
pub proof fn law_first_connected(
    candidates: Seq<Backend>,
    connected: Seq<bool>,
    chosen: Option<Backend>,
    first: int,
)
    requires
        Backend::is_first_connected(candidates, connected, chosen),
        0 <= first <= connected.len(),
        first <= candidates.len(),
        forall|j: int| 0 <= j < first ==> !connected[j],
    ensures
        first < connected.len() && first < candidates.len() && connected[first] ==> chosen == Some(
            candidates[first],
        ),
        first == connected.len() || first == candidates.len() ==> chosen is None,
{
    if first < connected.len() && first < candidates.len() && connected[first] {
        assert(chosen is Some);
    }
}

/// Off the main thread a loop is created only where any thread is allowed, and
/// on Android only for an application. Nothing else stands in its way.
pub proof fn law_options(
    options: PlatformSpecificEventLoopAttributes,
    backend: Backend,
    on_main_thread: bool,
)
    ensures
        !on_main_thread && !options.any_thread ==> !options.allow(backend, on_main_thread),
        backend == Backend::Android && options.android_app is None ==> !options.allow(
            backend,
            on_main_thread,
        ),
        (on_main_thread || options.any_thread) && (backend != Backend::Android
            || options.android_app is Some) ==> options.allow(backend, on_main_thread),
{
}

/// A builder that was given no options creates a loop on the main thread, on
/// every backend but Android.
pub proof fn law_initial_options(backend: Backend, on_main_thread: bool)
    ensures
        !PlatformSpecificEventLoopAttributes::initial().any_thread,
        PlatformSpecificEventLoopAttributes::initial().android_app is None,
        PlatformSpecificEventLoopAttributes::initial().allow(backend, on_main_thread) <==> (
        on_main_thread && backend != Backend::Android),
{
}

/// A program that has not created its loop may, whatever loops there were
/// before. To ask uses the one attempt up and moves on to the next number; to
/// ask in vain changes nothing; to be allowed again changes no number.
pub proof fn law_claiming(creation: Creation)
    ensures
        creation.may_create() <==> !creation.created,
        creation.after_claim().created,
        !creation.created && creation.next_id < u64::MAX ==> creation.after_claim().next_id
            == creation.next_id + 1,
        !creation.created && creation.next_id == u64::MAX ==> creation.after_claim().next_id == 0,
        creation.created ==> creation.after_claim().next_id == creation.next_id,
        !creation.after_recreation_allowed().created,
        creation.after_recreation_allowed().next_id == creation.next_id,
{
}

/// Each request moves the counter on by one, and from its last value to zero.
pub proof fn law_counting(counter: u64)
    ensures
        counter < u64::MAX ==> crate::serial::after_request(counter as int) == counter + 1,
        counter == u64::MAX ==> crate::serial::after_request(counter as int) == 0,
        crate::serial::serial_period() == u64::MAX + 1,
{
}

} // verus!
