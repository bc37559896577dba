//! What the handler of a running loop can ask of the window system.
use crate::backend::Backend;
use crate::device_events::DeviceEvents;
use std::marker::PhantomData;
use vstd::prelude::*;

verus! {

/// What is known of the window system.
pub ghost struct TargetState {
    pub backend: Backend,
    /// The monitors that are available, by the numbers that the window system
    /// gives them.
    pub monitors: Seq<u64>,
    /// The monitor that the window system calls its primary one.
    pub primary: Option<u64>,
    /// When device events are captured, on the backends that have a setting of
    /// it.
    pub device_events: Option<DeviceEvents>,
}

/// Handle to a monitor.
#[derive(Copy, Clone, Debug, PartialEq, Eq, Hash, Structural)]
pub struct MonitorHandle {
    /// The number that the window system gives the monitor.
    pub inner: u64,
}

/// What connecting to the window system has found.
#[derive(Debug)]
pub struct PlatformConnection {
    pub backend: Backend,
    /// The connection was made on the main thread of the program.
    pub on_main_thread: bool,
    /// The monitors that are available.
    pub monitors: Vec<u64>,
    /// The monitor that the window system calls its primary one.
    pub primary: Option<u64>,
}

impl PlatformConnection {
    /// The window system as a new event loop sees it. Where there is a setting
    /// of it, device events are captured while a window is focused.
    pub open spec fn target(self) -> TargetState {
        TargetState {
            backend: self.backend,
            monitors: self.monitors@,
            primary: self.primary,
            device_events: if self.backend.has_device_event_setting() {
                Some(DeviceEvents::WhenFocused)
            } else {
                None
            },
        }
    }
}

/// Target that associates windows with an event loop.
pub struct EventLoopWindowTarget<T: 'static> {
    backend: Backend,
    monitors: Vec<u64>,
    primary: Option<u64>,
    device_events: Option<DeviceEvents>,
    _marker: PhantomData<T>,
}

impl<T> View for EventLoopWindowTarget<T> {
    type V = TargetState;

    closed spec fn view(&self) -> TargetState {
        TargetState {
            backend: self.backend,
            monitors: self.monitors@,
            primary: self.primary,
            device_events: self.device_events,
        }
    }
}

/// One handle for each monitor, in the same order.
pub open spec fn handles(monitors: Seq<u64>) -> Seq<MonitorHandle> {
    Seq::new(monitors.len(), |i: int| MonitorHandle { inner: monitors[i] })
}

impl TargetState {
    /// The primary monitor, where the window system can tell.
    pub open spec fn primary_monitor(self) -> Option<MonitorHandle> {
        match self.primary {
            Some(inner) if self.backend.has_primary_monitor() => Some(MonitorHandle { inner }),
            _ => None,
        }
    }

    /// After the program has said when device events are to be captured.
    pub open spec fn after_listen(self, allowed: DeviceEvents) -> TargetState {
        TargetState {
            device_events: if self.backend.filters_device_events() {
                Some(allowed)
            } else {
                self.device_events
            },
            ..self
        }
    }

    /// A device event that arrives while a window has or lacks the focus is
    /// handed to the program. Without a setting, each one is that the window
    /// system reports.
    pub open spec fn captures(self, focused: bool) -> bool {
        match self.device_events {
            Some(allowed) => allowed.captures(focused),
            None => true,
        }
    }

    /// After the window system has reported its monitors anew.
    pub open spec fn after_monitors_changed(
        self,
        monitors: Seq<u64>,
        primary: Option<u64>,
    ) -> TargetState {
        TargetState { monitors, primary, ..self }
    }
}

impl<T> EventLoopWindowTarget<T> {
    /// The target of a new event loop.
    pub(crate) fn connect(platform: PlatformConnection) -> (target: Self)
        ensures
            target@ == platform.target(),
    {
        EventLoopWindowTarget {
            backend: platform.backend,
            monitors: platform.monitors,
            primary: platform.primary,
            device_events: if platform.backend.has_device_event_setting() {
                Some(DeviceEvents::default())
            } else {
                None
            },
            _marker: PhantomData,
        }
    }

    /// The window system.
    pub fn backend(&self) -> (backend: Backend)
        ensures
            backend == self@.backend,
    {
        self.backend
    }

    /// When device events are captured, on the backends that have a setting of
    /// it.
    pub fn device_events(&self) -> (allowed: Option<DeviceEvents>)
        ensures
            allowed == self@.device_events,
    {
        self.device_events
    }

    /// Whether a device event that arrives while a window has or lacks the
    /// focus is handed to the program.
    pub fn captures_device_event(&self, focused: bool) -> (captured: bool)
        ensures
            captured == self@.captures(focused),
    {
        match self.device_events {
            Some(allowed) => allowed.captures(focused),
            None => true,
        }
    }

    /// Returns the list of all the monitors available on the system.
    pub fn available_monitors(&self) -> (monitors: Vec<MonitorHandle>)
        ensures
            monitors@ == handles(self@.monitors),
    {
        let mut found: Vec<MonitorHandle> = Vec::new();
        let mut i: usize = 0;
        while i < self.monitors.len()
            invariant
                i <= self.monitors.len(),
                found@ == handles(self@.monitors).take(i as int),
            decreases self.monitors.len() - i,
        {
            found.push(MonitorHandle { inner: self.monitors[i] });
            i += 1;
        }
        found
    }

    /// Returns the primary monitor of the system.
    ///
    /// Returns `None` if it can't identify any monitor as a primary one, and
    /// always on Wayland.
    pub fn primary_monitor(&self) -> (monitor: Option<MonitorHandle>)
        ensures
            monitor == self@.primary_monitor(),
            self@.backend == Backend::Wayland ==> monitor is None,
    {
        match self.primary {
            Some(inner) if self.backend.has_primary_monitor() => Some(MonitorHandle { inner }),
            _ => None,
        }
    }

    /// Changes if or when device events are captured.
    ///
    /// Wayland, macOS, iOS, Android and Orbital do not support this: nothing
    /// changes there.
    pub fn listen_device_events(&mut self, allowed: DeviceEvents)
        ensures
            final(self)@ == old(self)@.after_listen(allowed),
    {
        if self.backend.filters_device_events() {
            self.device_events = Some(allowed);
        }
    }

    /// Takes over the monitors that the window system has reported.
    pub fn monitors_changed(&mut self, monitors: Vec<u64>, primary: Option<u64>)
        ensures
            final(self)@ == old(self)@.after_monitors_changed(monitors@, primary),
    {
        self.monitors = monitors;
        self.primary = primary;
    }

    /// How the target shows when it is printed for debugging.
    pub fn debug_text(&self) -> (text: String)
        ensures
            text@ == "EventLoopWindowTarget { .. }"@,
    {
        "EventLoopWindowTarget { .. }".to_owned()
    }
}

} // verus!
