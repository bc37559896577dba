//! Building an event loop.
use crate::backend::Backend;
use crate::creation::{EventLoopCreated, LoopClaim};
use crate::event_loop::EventLoop;
use crate::run_state::LoopState;
use crate::window_target::PlatformConnection;
use std::marker::PhantomData;
use vstd::prelude::*;

verus! {

/// The Android application that the loop belongs to.
#[derive(Copy, Clone, Debug, PartialEq, Eq, Structural)]
pub struct AndroidApp {
    /// The number by which the program knows the application.
    pub inner: u64,
}

/// The options of an event loop that only some platforms have.
#[derive(Copy, Clone, Debug, PartialEq, Eq, Structural)]
pub struct PlatformSpecificEventLoopAttributes {
    /// The loop may be created on a thread that is not the main one.
    pub any_thread: bool,
    /// The application that a loop on Android needs.
    pub android_app: Option<AndroidApp>,
}

impl PlatformSpecificEventLoopAttributes {
    /// The options that a builder starts with.
    pub open spec fn initial() -> PlatformSpecificEventLoopAttributes {
        PlatformSpecificEventLoopAttributes { any_thread: false, android_app: None }
    }

    /// With these options an event loop can be created on the backend, from the
    /// main thread or another one.
    pub open spec fn spec_allow(self, backend: Backend, on_main_thread: bool) -> bool {
        &&& on_main_thread || self.any_thread
        &&& backend == Backend::Android ==> self.android_app is Some
    }

    /// Whether these options let an event loop be created on the backend: on
    /// the main thread unless any thread is allowed, and on Android only for
    /// an application.
    #[verifier::when_used_as_spec(spec_allow)]
    pub fn allow(self, backend: Backend, on_main_thread: bool) -> (allowed: bool)
        ensures
            allowed == self.spec_allow(backend, on_main_thread),
    {
        let app_is_there: bool = match (backend, self.android_app) {
            (Backend::Android, None) => false,
            _ => true,
        };
        (on_main_thread || self.any_thread) && app_is_there
    }
}

impl Default for PlatformSpecificEventLoopAttributes {
    fn default() -> (attributes: Self)
        ensures
            attributes == PlatformSpecificEventLoopAttributes::initial(),
    {
        PlatformSpecificEventLoopAttributes { any_thread: false, android_app: None }
    }
}

/// Object that allows building the event loop.
///
/// Constructing multiple event loops is not supported.
pub struct EventLoopBuilder<T: 'static> {
    platform_specific: PlatformSpecificEventLoopAttributes,
    _p: PhantomData<T>,
}

impl<T> View for EventLoopBuilder<T> {
    type V = PlatformSpecificEventLoopAttributes;

    closed spec fn view(&self) -> PlatformSpecificEventLoopAttributes {
        self.platform_specific
    }
}

impl<T> Default for EventLoopBuilder<T> {
    fn default() -> (builder: Self)
        ensures
            builder@ == PlatformSpecificEventLoopAttributes::initial(),
    {
        EventLoopBuilder {
            platform_specific: PlatformSpecificEventLoopAttributes::default(),
            _p: PhantomData,
        }
    }
}

impl EventLoopBuilder<()> {
    /// Start building a new event loop.
    pub fn new() -> (builder: Self)
        ensures
            builder@ == PlatformSpecificEventLoopAttributes::initial(),
    {
        Self::with_user_event()
    }
}

impl<T> EventLoopBuilder<T> {
    /// Start building a new event loop, with the given type as the user event
    /// type.
    pub fn with_user_event() -> (builder: Self)
        ensures
            builder@ == PlatformSpecificEventLoopAttributes::initial(),
    {
        EventLoopBuilder {
            platform_specific: PlatformSpecificEventLoopAttributes::default(),
            _p: PhantomData,
        }
    }

    /// Says whether the event loop may be created on any thread, for the
    /// platforms that support it.
    pub fn any_thread(&mut self, any_thread: bool)
        ensures
            final(self)@ == (PlatformSpecificEventLoopAttributes { any_thread, ..old(self)@ }),
    {
        self.platform_specific.any_thread = any_thread;
    }

    /// Gives the builder the application that a loop on Android needs.
    pub fn with_android_app(&mut self, app: AndroidApp)
        ensures
            final(self)@ == (PlatformSpecificEventLoopAttributes {
                android_app: Some(app),
                ..old(self)@
            }),
    {
        self.platform_specific.android_app = Some(app);
    }

    /// The platform specific options.
    pub fn attributes(&self) -> (attributes: PlatformSpecificEventLoopAttributes)
        ensures
            attributes == self@,
    {
        self.platform_specific
    }

    /// Builds a new event loop, on the window system that was connected to.
    ///
    /// The event loop must be created on the main thread, unless the options
    /// allow any thread, and only once per program: the claim is the right to
    /// that one creation. On Android the builder must have been given the
    /// application.
    pub fn build(&mut self, claim: LoopClaim, platform: PlatformConnection) -> (event_loop:
        EventLoop<T>)
        requires
            old(self)@.allow(platform.backend, platform.on_main_thread),
        ensures
            event_loop@ == LoopState::<T>::created(claim@, platform.target()),
            final(self)@ == old(self)@,
    {
        EventLoop::connect(claim.id(), platform)
    }

    /// Allows another event loop to be created, for the platforms on which the
    /// first one may have ended while the program goes on.
    pub fn allow_event_loop_recreation(created: &mut EventLoopCreated)
        ensures
            final(created)@ == old(created)@.after_recreation_allowed(),
    {
        created.clear();
    }
}

} // verus!
