//! When device events are captured.
use vstd::prelude::*;

verus! {

/// Controls when device events are captured.
#[derive(Copy, Clone, PartialEq, Eq, PartialOrd, Ord, Hash, Debug, Structural)]
pub enum DeviceEvents {
    /// Report device events regardless of window focus.
    Always,
    /// Only capture device events while the window is focused.
    WhenFocused,
    /// Never capture device events.
    Never,
}

impl DeviceEvents {
    /// Device events that arrive while the window has or lacks the focus are
    /// captured.
    pub open spec fn spec_captures(self, focused: bool) -> bool {
        self == DeviceEvents::Always || self == DeviceEvents::WhenFocused && focused
    }

    /// Whether a device event that arrives while the window has or lacks the
    /// focus is captured.
    #[verifier::when_used_as_spec(spec_captures)]
    pub fn captures(self, focused: bool) -> (captured: bool)
        ensures
            captured == self.spec_captures(focused),
    {
        match self {
            DeviceEvents::Always => true,
            DeviceEvents::WhenFocused => focused,
            DeviceEvents::Never => false,
        }
    }
}

impl Default for DeviceEvents {
    fn default() -> (allowed: Self)
        ensures
            allowed == DeviceEvents::WhenFocused,
    {
        DeviceEvents::WhenFocused
    }
}

} // verus!
