use event_loop::backend::{Backend, UnknownBackend};
use event_loop::builder::{AndroidApp, EventLoopBuilder};
use event_loop::control_flow::ControlFlow;
use event_loop::creation::{EventLoopCreated, LoopClaim};
use event_loop::device_events::DeviceEvents;
use event_loop::event_loop::{EventLoop, EventLoopClosed, EventLoopProxy};
use event_loop::run_state::{Event, RunLoopError, RunStep};
use event_loop::serial::{AsyncRequestSerial, SerialCounter};
use event_loop::window_target::{MonitorHandle, PlatformConnection};
use web_time::{Duration, Instant};

fn platform(backend: Backend) -> PlatformConnection {
    PlatformConnection {
        backend,
        on_main_thread: true,
        monitors: vec![7, 3, 9],
        primary: Some(3),
    }
}

fn claim(created: &mut EventLoopCreated) -> LoopClaim {
    created.claim().expect("an event loop has been created before")
}

fn new_loop(backend: Backend) -> EventLoop<u32> {
    let mut created = EventLoopCreated::new();
    let mut builder = EventLoopBuilder::<u32>::with_user_event();
    builder.with_android_app(AndroidApp { inner: 1 });
    builder.build(claim(&mut created), platform(backend))
}

/// Hands the handler's answer to the loop.
fn handle(event_loop: &mut EventLoop<u32>, change: fn(&mut ControlFlow)) {
    let mut flow = event_loop.control_flow();
    change(&mut flow);
    event_loop.handled(flow);
}

#[test]
fn control_flow_setters() {
    let mut flow = ControlFlow::default();
    assert_eq!(flow, ControlFlow::Poll);
    flow.set_wait();
    assert_eq!(flow, ControlFlow::Wait);
    flow.set_poll();
    assert_eq!(flow, ControlFlow::Poll);
    let now = Instant::now();
    flow.set_wait_until(now);
    assert_eq!(flow, ControlFlow::WaitUntil(now));
    flow.set_exit_with_code(-42);
    assert_eq!(flow, ControlFlow::ExitWithCode(-42));
    flow.set_exit();
    assert_eq!(flow, ControlFlow::ExitWithCode(0));
    assert_eq!(flow, ControlFlow::exit());
}

#[test]
fn wait_timeout_counts_from_now() {
    let timeout = Duration::from_secs(60);
    let before = Instant::now();
    let mut flow = ControlFlow::Poll;
    flow.set_wait_timeout(timeout);
    let after = Instant::now();
    match flow {
        ControlFlow::WaitUntil(deadline) => {
            assert!(before + timeout <= deadline);
            assert!(deadline <= after + timeout);
        }
        other => panic!("not waiting for a deadline: {:?}", other),
    }
}

#[test]
fn wait_timeout_of_zero_is_now() {
    let before = Instant::now();
    let mut flow = ControlFlow::Poll;
    flow.set_wait_timeout(Duration::ZERO);
    let after = Instant::now();
    match flow {
        ControlFlow::WaitUntil(deadline) => {
            assert!(before <= deadline);
            assert!(deadline <= after);
        }
        other => panic!("not waiting for a deadline: {:?}", other),
    }
}

#[test]
fn longer_timeouts_wait_longer() {
    let now = Instant::now();
    let mut shorter = ControlFlow::Poll;
    let mut longer = ControlFlow::Poll;
    shorter.set_wait_deadline(now.checked_add(Duration::from_millis(10)));
    longer.set_wait_deadline(now.checked_add(Duration::from_millis(11)));
    match (shorter, longer) {
        (ControlFlow::WaitUntil(earlier), ControlFlow::WaitUntil(later)) => {
            assert_eq!(later - earlier, Duration::from_millis(1));
        }
        other => panic!("not waiting for deadlines: {:?}", other),
    }
    shorter.set_wait_deadline(now.checked_add(Duration::MAX - Duration::from_secs(1)));
    longer.set_wait_deadline(now.checked_add(Duration::MAX));
    assert_eq!(shorter, ControlFlow::Wait);
    assert_eq!(longer, ControlFlow::Wait);
}

#[test]
fn wait_timeout_that_overflows_waits() {
    let mut flow = ControlFlow::Poll;
    flow.set_wait_timeout(Duration::MAX);
    assert_eq!(flow, ControlFlow::Wait);
}

#[test]
fn wait_deadline_is_kept() {
    let deadline = Instant::now() + Duration::from_millis(5);
    let mut flow = ControlFlow::Poll;
    flow.set_wait_deadline(Some(deadline));
    assert_eq!(flow, ControlFlow::WaitUntil(deadline));
    flow.set_wait_deadline(None);
    assert_eq!(flow, ControlFlow::Wait);
}

#[test]
fn exit_settles_first() {
    let exit = ControlFlow::ExitWithCode(3);
    assert_eq!(exit.settle(ControlFlow::Poll), exit);
    assert_eq!(exit.settle(ControlFlow::ExitWithCode(4)), exit);
    assert_eq!(ControlFlow::Poll.settle(exit), exit);
    assert_eq!(ControlFlow::Wait.settle(ControlFlow::Poll), ControlFlow::Poll);
}

#[test]
fn one_event_loop_per_program() {
    let mut created = EventLoopCreated::new();
    assert!(!created.is_set());
    let mut first = EventLoop::new(claim(&mut created), platform(Backend::Web));
    assert!(created.is_set());
    assert!(created.claim().is_none());
    let stale = first.create_proxy();
    first.close();
    EventLoopBuilder::<()>::allow_event_loop_recreation(&mut created);
    assert!(!created.is_set());
    let mut second = EventLoop::new(claim(&mut created), platform(Backend::Web));
    assert!(created.is_set());
    assert_eq!(stale.send_event(&mut second, ()), Err(EventLoopClosed(())));
    assert_eq!(second.create_proxy().send_event(&mut second, ()), Ok(()));
}

#[test]
fn failed_creation_uses_up_the_claim() {
    let mut created = EventLoopCreated::new();
    let unused = created.claim();
    assert!(unused.is_some());
    // The window system could not be connected to.
    drop(unused);
    assert!(created.is_set());
    assert!(created.claim().is_none());
    assert!(created.claim().is_none());
}

#[test]
fn builder_options() {
    let mut builder = EventLoopBuilder::new();
    assert!(!builder.attributes().any_thread);
    assert_eq!(builder.attributes().android_app, None);
    assert!(builder.attributes().allow(Backend::X11, true));
    assert!(!builder.attributes().allow(Backend::X11, false));
    builder.any_thread(true);
    assert!(builder.attributes().any_thread);
    assert!(builder.attributes().allow(Backend::X11, false));
    let mut created = EventLoopCreated::new();
    let mut elsewhere = platform(Backend::X11);
    elsewhere.on_main_thread = false;
    let event_loop = builder.build(claim(&mut created), elsewhere);
    assert!(event_loop.may_run());
    assert!(!EventLoopBuilder::<u8>::default().attributes().any_thread);
}

#[test]
fn android_needs_an_application() {
    let mut builder = EventLoopBuilder::new();
    assert!(!builder.attributes().allow(Backend::Android, true));
    builder.with_android_app(AndroidApp { inner: 5 });
    assert_eq!(builder.attributes().android_app, Some(AndroidApp { inner: 5 }));
    assert!(builder.attributes().allow(Backend::Android, true));
    assert!(!builder.attributes().allow(Backend::Android, false));
    let mut created = EventLoopCreated::new();
    let event_loop = builder.build(claim(&mut created), platform(Backend::Android));
    assert_eq!(event_loop.backend(), Backend::Android);
}

#[test]
fn user_event_alias_builds() {
    let mut created = EventLoopCreated::new();
    let event_loop =
        EventLoop::<u32>::with_user_event(claim(&mut created), platform(Backend::Windows));
    assert!(created.is_set());
    assert_eq!(event_loop.backend(), Backend::Windows);
    assert_eq!(event_loop.control_flow(), ControlFlow::Poll);
}

#[test]
fn proxies_can_be_sent_to_another_thread() {
    fn sendable<P: Send>(proxy: P) -> P {
        proxy
    }
    let mut event_loop = new_loop(Backend::X11);
    let proxy: EventLoopProxy<u32> = sendable(event_loop.create_proxy());
    assert_eq!(proxy.send_event(&mut event_loop, 1), Ok(()));
}

#[test]
fn sent_events_come_out_in_order() {
    let mut event_loop = new_loop(Backend::X11);
    let proxy = event_loop.create_proxy();
    let other = proxy.clone();
    assert_eq!(proxy.send_event(&mut event_loop, 1), Ok(()));
    event_loop.run();
    assert_eq!(event_loop.next_step(), RunStep::BeginIteration);
    assert_eq!(other.send_event(&mut event_loop, 2), Ok(()));
    assert_eq!(event_loop.next_step(), RunStep::Dispatch(Event::UserEvent(1)));
    assert_eq!(proxy.send_event(&mut event_loop, 3), Ok(()));
    assert_eq!(event_loop.next_step(), RunStep::Dispatch(Event::UserEvent(2)));
    assert_eq!(event_loop.next_step(), RunStep::Dispatch(Event::UserEvent(3)));
    assert_eq!(event_loop.next_step(), RunStep::Dispatch(Event::AboutToWait));
}

#[test]
fn pending_events_are_emitted_between_answers() {
    let mut event_loop = new_loop(Backend::X11);
    let proxy = event_loop.create_proxy();
    event_loop.run();
    assert_eq!(proxy.send_event(&mut event_loop, 1), Ok(()));
    assert_eq!(proxy.send_event(&mut event_loop, 2), Ok(()));
    handle(&mut event_loop, ControlFlow::set_wait);
    assert_eq!(event_loop.next_step(), RunStep::BeginIteration);
    assert_eq!(event_loop.next_step(), RunStep::Dispatch(Event::UserEvent(1)));
    handle(&mut event_loop, ControlFlow::set_poll);
    assert_eq!(proxy.send_event(&mut event_loop, 3), Ok(()));
    event_loop.resume();
    assert_eq!(event_loop.next_step(), RunStep::Dispatch(Event::UserEvent(2)));
    handle(&mut event_loop, ControlFlow::set_wait);
    assert_eq!(event_loop.next_step(), RunStep::Dispatch(Event::UserEvent(3)));
    assert_eq!(event_loop.next_step(), RunStep::Dispatch(Event::AboutToWait));
}

#[test]
fn closed_loop_gives_the_event_back() {
    let mut event_loop = new_loop(Backend::X11);
    let proxy = event_loop.create_proxy();
    assert_eq!(proxy.send_event(&mut event_loop, 1), Ok(()));
    event_loop.close();
    assert!(!event_loop.may_run());
    let refused = proxy.send_event(&mut event_loop, 17);
    assert_eq!(refused, Err(EventLoopClosed(17)));
    assert_eq!(
        EventLoopClosed(17).message(),
        "Tried to wake up a closed `EventLoop`"
    );
}

#[test]
fn poll_begins_at_once() {
    let mut event_loop = new_loop(Backend::X11);
    event_loop.run();
    assert!(event_loop.is_running());
    for _ in 0..3 {
        assert_eq!(event_loop.next_step(), RunStep::BeginIteration);
        assert_eq!(event_loop.next_step(), RunStep::Dispatch(Event::AboutToWait));
    }
}

#[test]
fn wait_suspends_until_an_event() {
    let mut event_loop = new_loop(Backend::Wayland);
    let proxy = event_loop.create_proxy();
    event_loop.run();
    assert_eq!(event_loop.next_step(), RunStep::BeginIteration);
    assert_eq!(event_loop.next_step(), RunStep::Dispatch(Event::AboutToWait));
    handle(&mut event_loop, ControlFlow::set_wait);
    assert_eq!(event_loop.next_step(), RunStep::Suspend);
    assert_eq!(event_loop.next_step(), RunStep::Suspend);
    assert_eq!(proxy.send_event(&mut event_loop, 5), Ok(()));
    assert_eq!(event_loop.next_step(), RunStep::BeginIteration);
    assert_eq!(event_loop.next_step(), RunStep::Dispatch(Event::UserEvent(5)));
    assert_eq!(event_loop.next_step(), RunStep::Dispatch(Event::AboutToWait));
    assert_eq!(event_loop.next_step(), RunStep::Suspend);
    event_loop.resume();
    assert_eq!(event_loop.next_step(), RunStep::Dispatch(Event::AboutToWait));
    assert_eq!(event_loop.control_flow(), ControlFlow::Wait);
}

#[test]
fn wait_until_suspends_to_the_deadline() {
    let mut event_loop = new_loop(Backend::X11);
    let deadline = Instant::now() + Duration::from_secs(1);
    event_loop.run();
    assert_eq!(event_loop.next_step(), RunStep::BeginIteration);
    assert_eq!(event_loop.next_step(), RunStep::Dispatch(Event::AboutToWait));
    event_loop.handled(ControlFlow::WaitUntil(deadline));
    assert_eq!(event_loop.next_step(), RunStep::SuspendUntil(deadline));
    event_loop.resume();
    assert_eq!(event_loop.next_step(), RunStep::Dispatch(Event::AboutToWait));
}

#[test]
fn exit_is_sticky_and_ends_the_run() {
    let mut event_loop = new_loop(Backend::X11);
    let proxy = event_loop.create_proxy();
    event_loop.run();
    assert_eq!(event_loop.next_step(), RunStep::BeginIteration);
    event_loop.handled(ControlFlow::ExitWithCode(3));
    handle(&mut event_loop, ControlFlow::set_poll);
    handle(&mut event_loop, ControlFlow::set_exit);
    assert_eq!(event_loop.control_flow(), ControlFlow::ExitWithCode(3));
    assert_eq!(proxy.send_event(&mut event_loop, 8), Ok(()));
    assert_eq!(event_loop.next_step(), RunStep::Dispatch(Event::UserEvent(8)));
    assert_eq!(event_loop.next_step(), RunStep::Dispatch(Event::AboutToWait));
    event_loop.resume();
    assert_eq!(event_loop.next_step(), RunStep::Dispatch(Event::LoopExiting));
    handle(&mut event_loop, ControlFlow::set_wait);
    assert_eq!(proxy.send_event(&mut event_loop, 9), Ok(()));
    event_loop.resume();
    event_loop.display_disconnected();
    assert_eq!(
        event_loop.next_step(),
        RunStep::Stop(Err(RunLoopError::ExitFailure(3)))
    );
    assert!(!event_loop.is_running());
}

#[test]
fn exit_with_code_zero_succeeds() {
    let mut event_loop = new_loop(Backend::MacOs);
    event_loop.run();
    handle(&mut event_loop, ControlFlow::set_exit);
    assert_eq!(event_loop.next_step(), RunStep::Dispatch(Event::LoopExiting));
    assert_eq!(event_loop.next_step(), RunStep::Stop(Ok(())));
}

#[test]
fn exit_code_is_unused_on_some_backends() {
    let endings = vec![
        (Backend::Android, RunStep::Stop(Ok(()))),
        (Backend::Ios, RunStep::Leave),
        (Backend::Web, RunStep::Leave),
    ];
    for (backend, ending) in endings {
        let mut event_loop = new_loop(backend);
        event_loop.run();
        event_loop.handled(ControlFlow::ExitWithCode(2));
        assert_eq!(event_loop.next_step(), RunStep::Dispatch(Event::LoopExiting));
        assert_eq!(event_loop.next_step(), ending);
        assert!(!event_loop.is_running());
    }
}

#[test]
fn new_run_resets_the_control_flow() {
    let mut event_loop = new_loop(Backend::X11);
    event_loop.run();
    event_loop.handled(ControlFlow::ExitWithCode(1));
    assert_eq!(event_loop.next_step(), RunStep::Dispatch(Event::LoopExiting));
    assert_eq!(
        event_loop.next_step(),
        RunStep::Stop(Err(RunLoopError::ExitFailure(1)))
    );
    assert!(event_loop.may_run());
    event_loop.run();
    assert_eq!(event_loop.control_flow(), ControlFlow::Poll);
    assert_eq!(event_loop.next_step(), RunStep::BeginIteration);
}

#[test]
fn disconnect_exits_with_one() {
    for backend in vec![Backend::X11, Backend::Wayland] {
        let mut event_loop = new_loop(backend);
        event_loop.display_disconnected();
        event_loop.run();
        assert_eq!(event_loop.next_step(), RunStep::BeginIteration);
        event_loop.handled(ControlFlow::Wait);
        event_loop.display_disconnected();
        assert_eq!(event_loop.control_flow(), ControlFlow::Wait);
        assert_eq!(event_loop.next_step(), RunStep::Dispatch(Event::AboutToWait));
        event_loop.resume();
        assert_eq!(event_loop.next_step(), RunStep::Dispatch(Event::LoopExiting));
        assert_eq!(event_loop.control_flow(), ControlFlow::Wait);
        assert_eq!(
            event_loop.next_step(),
            RunStep::Stop(Err(RunLoopError::ExitFailure(1)))
        );
    }
    let mut event_loop = new_loop(Backend::Windows);
    event_loop.run();
    event_loop.display_disconnected();
    assert_eq!(event_loop.next_step(), RunStep::BeginIteration);
}

#[test]
fn exit_code_of_the_handler_goes_before_a_disconnect() {
    for handler_first in vec![true, false] {
        let mut event_loop = new_loop(Backend::X11);
        event_loop.run();
        if handler_first {
            event_loop.handled(ControlFlow::ExitWithCode(7));
            event_loop.display_disconnected();
        } else {
            event_loop.display_disconnected();
            event_loop.handled(ControlFlow::ExitWithCode(7));
        }
        assert_eq!(event_loop.next_step(), RunStep::Dispatch(Event::LoopExiting));
        assert_eq!(
            event_loop.next_step(),
            RunStep::Stop(Err(RunLoopError::ExitFailure(7)))
        );
    }
}

#[test]
fn monitors_are_listed() {
    let mut event_loop = new_loop(Backend::X11);
    assert_eq!(
        event_loop.available_monitors(),
        vec![
            MonitorHandle { inner: 7 },
            MonitorHandle { inner: 3 },
            MonitorHandle { inner: 9 }
        ]
    );
    assert_eq!(event_loop.primary_monitor(), Some(MonitorHandle { inner: 3 }));
    event_loop.window_target_mut().monitors_changed(vec![4], None);
    assert_eq!(event_loop.available_monitors(), vec![MonitorHandle { inner: 4 }]);
    assert_eq!(event_loop.primary_monitor(), None);
}

#[test]
fn wayland_has_no_primary_monitor() {
    let event_loop = new_loop(Backend::Wayland);
    assert_eq!(event_loop.primary_monitor(), None);
    assert_eq!(event_loop.available_monitors().len(), 3);
}

#[test]
fn device_events_are_filtered_where_supported() {
    for backend in vec![Backend::X11, Backend::Web, Backend::Windows] {
        let mut event_loop = new_loop(backend);
        assert_eq!(event_loop.device_events(), Some(DeviceEvents::WhenFocused));
        event_loop
            .window_target_mut()
            .listen_device_events(DeviceEvents::Always);
        assert_eq!(event_loop.device_events(), Some(DeviceEvents::Always));
        assert!(event_loop.captures_device_event(false));
        event_loop
            .window_target_mut()
            .listen_device_events(DeviceEvents::Never);
        assert!(!event_loop.captures_device_event(true));
    }
    for backend in vec![
        Backend::MacOs,
        Backend::Ios,
        Backend::Android,
        Backend::Orbital,
    ] {
        let mut event_loop = new_loop(backend);
        event_loop
            .window_target_mut()
            .listen_device_events(DeviceEvents::Never);
        assert_eq!(event_loop.device_events(), None);
        assert!(event_loop.captures_device_event(true));
        assert!(event_loop.captures_device_event(false));
    }
}

#[test]
fn wayland_keeps_the_default_of_device_events() {
    let mut event_loop = new_loop(Backend::Wayland);
    event_loop
        .window_target_mut()
        .listen_device_events(DeviceEvents::Always);
    assert_eq!(event_loop.device_events(), Some(DeviceEvents::WhenFocused));
    assert!(event_loop.captures_device_event(true));
    assert!(!event_loop.captures_device_event(false));
}

#[test]
fn device_events_capture() {
    assert_eq!(DeviceEvents::default(), DeviceEvents::WhenFocused);
    assert!(DeviceEvents::Always.captures(false));
    assert!(DeviceEvents::Always.captures(true));
    assert!(DeviceEvents::WhenFocused.captures(true));
    assert!(!DeviceEvents::WhenFocused.captures(false));
    assert!(!DeviceEvents::Never.captures(true));
    assert!(DeviceEvents::Always < DeviceEvents::WhenFocused);
    assert!(DeviceEvents::WhenFocused < DeviceEvents::Never);
}

#[test]
fn unix_backend_variable() {
    assert_eq!(
        Backend::unix_candidates(None),
        Ok(vec![Backend::Wayland, Backend::X11])
    );
    assert_eq!(
        Backend::unix_candidates(Some("x11".to_string())),
        Ok(vec![Backend::X11])
    );
    assert_eq!(
        Backend::unix_candidates(Some("wayland".to_string())),
        Ok(vec![Backend::Wayland])
    );
    for other in vec!["", "X11", "wayland ", "mir"] {
        assert_eq!(
            Backend::unix_candidates(Some(other.to_string())),
            Err(UnknownBackend)
        );
    }
}

#[test]
fn first_backend_that_connects_is_chosen() {
    let both = vec![Backend::Wayland, Backend::X11];
    assert_eq!(Backend::chosen(&both, &vec![true]), Some(Backend::Wayland));
    assert_eq!(Backend::chosen(&both, &vec![true, true]), Some(Backend::Wayland));
    assert_eq!(Backend::chosen(&both, &vec![false, true]), Some(Backend::X11));
    assert_eq!(Backend::chosen(&both, &vec![false, false]), None);
    assert_eq!(Backend::chosen(&vec![Backend::X11], &vec![true]), Some(Backend::X11));
}

#[test]
fn serials_differ() {
    let mut counter = SerialCounter::new();
    let first = AsyncRequestSerial::get(&mut counter);
    let second = AsyncRequestSerial::get(&mut counter);
    let mut other = SerialCounter::new();
    assert_ne!(first, second);
    assert_eq!(first, AsyncRequestSerial::get(&mut other));
    assert_eq!(second, AsyncRequestSerial::get(&mut other));
}

#[test]
fn debug_texts() {
    let event_loop = new_loop(Backend::X11);
    assert_eq!(event_loop.debug_text(), "EventLoop { .. }");
    assert_eq!(
        event_loop.create_proxy().debug_text(),
        "EventLoopProxy { .. }"
    );
    let target: &event_loop::window_target::EventLoopWindowTarget<u32> = &event_loop;
    assert_eq!(target.debug_text(), "EventLoopWindowTarget { .. }");
}
