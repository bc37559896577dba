//! The platform independent core of a window event loop: creating the loop,
//! sending it user events through proxies, and deciding what a running loop
//! does next.

pub mod backend;
pub mod builder;
pub mod clock;
pub mod control_flow;
pub mod creation;
pub mod device_events;
pub mod event_loop;
pub mod laws;
pub mod platform_laws;
pub mod run_state;
pub mod serial;
pub mod step_laws;
pub mod window_target;
