//! The window systems that a loop can run on, and how one is chosen.
use vstd::prelude::*;

verus! {

/// The window system that an event loop is connected to.
#[derive(Copy, Clone, Debug, PartialEq, Eq, Structural)]
pub enum Backend {
    X11,
    Wayland,
    Windows,
    MacOs,
    Ios,
    Android,
    Web,
    Orbital,
}

/// The value that was asked for names no window system.
#[derive(Copy, Clone, Debug, PartialEq, Eq, Structural)]
pub struct UnknownBackend;

impl Backend {
    /// X11, Windows and browsers let the program say when device events are
    /// captured.
    pub open spec fn spec_filters_device_events(self) -> bool {
        self == Backend::X11 || self == Backend::Web || self == Backend::Windows
    }

    /// On Linux and BSD, on Windows and in browsers there is a setting of when
    /// device events are captured.
    pub open spec fn spec_has_device_event_setting(self) -> bool {
        self.spec_filters_device_events() || self == Backend::Wayland
    }

    /// Every backend but Wayland can tell which monitor is the primary one.
    pub open spec fn spec_has_primary_monitor(self) -> bool {
        self != Backend::Wayland
    }

    /// Android, iOS and browsers do not use the exit code of a loop.
    pub open spec fn spec_uses_exit_code(self) -> bool {
        self != Backend::Android && self != Backend::Ios && self != Backend::Web
    }

    /// On iOS and in browsers running the loop does not return to its caller.
    pub open spec fn spec_run_returns(self) -> bool {
        self != Backend::Ios && self != Backend::Web
    }

    /// X11 and Wayland have a display server, which may go away.
    pub open spec fn spec_has_display_server(self) -> bool {
        self == Backend::X11 || self == Backend::Wayland
    }

    /// Whether a loop on this backend lets the program say when device events
    /// are captured.
    #[verifier::when_used_as_spec(spec_filters_device_events)]
    pub fn filters_device_events(self) -> (filters: bool)
        ensures
            filters == self.spec_filters_device_events(),
    {
        match self {
            Backend::X11 | Backend::Web | Backend::Windows => true,
            Backend::Wayland | Backend::MacOs | Backend::Ios | Backend::Android
            | Backend::Orbital => false,
        }
    }

    /// Whether this backend has a setting of when device events are captured.
    #[verifier::when_used_as_spec(spec_has_device_event_setting)]
    pub fn has_device_event_setting(self) -> (has: bool)
        ensures
            has == self.spec_has_device_event_setting(),
    {
        self.filters_device_events() || self == Backend::Wayland
    }

    /// Whether this backend can tell which monitor is the primary one.
    #[verifier::when_used_as_spec(spec_has_primary_monitor)]
    pub fn has_primary_monitor(self) -> (has: bool)
        ensures
            has == self.spec_has_primary_monitor(),
    {
        self != Backend::Wayland
    }

    /// Whether the exit code of a loop reaches the program on this backend.
    #[verifier::when_used_as_spec(spec_uses_exit_code)]
    pub fn uses_exit_code(self) -> (uses: bool)
        ensures
            uses == self.spec_uses_exit_code(),
    {
        match self {
            Backend::Android | Backend::Ios | Backend::Web => false,
            _ => true,
        }
    }

    /// Whether running a loop on this backend returns to its caller.
    #[verifier::when_used_as_spec(spec_run_returns)]
    pub fn run_returns(self) -> (comes_back: bool)
        ensures
            comes_back == self.spec_run_returns(),
    {
        self != Backend::Ios && self != Backend::Web
    }

    /// Whether a loop on this backend talks to a display server that may go
    /// away.
    #[verifier::when_used_as_spec(spec_has_display_server)]
    pub fn has_display_server(self) -> (has: bool)
        ensures
            has == self.spec_has_display_server(),
    {
        self == Backend::X11 || self == Backend::Wayland
    }

    /// The backends that a Unix program tries, in this order, for a value of
    /// the environment variable `WINIT_UNIX_BACKEND`.
    pub open spec fn spec_unix_candidates(variable: Option<Seq<char>>) -> Result<
        Seq<Backend>,
        UnknownBackend,
    > {
        match variable {
            None => Ok(seq![Backend::Wayland, Backend::X11]),
            Some(name) => if name == "x11"@ {
                Ok(seq![Backend::X11])
            } else if name == "wayland"@ {
                Ok(seq![Backend::Wayland])
            } else {
                Err(UnknownBackend)
            },
        }
    }

    /// The backends to try for the value of `WINIT_UNIX_BACKEND`, in order.
    /// `x11` and `wayland` leave one. Where the variable is not set, Wayland is
    /// tried first and X11 if that fails. Any other value is an error.
    pub fn unix_candidates(variable: Option<String>) -> (candidates: Result<
        Vec<Backend>,
        UnknownBackend,
    >)
        ensures
            match Backend::spec_unix_candidates(
                match variable {
                    Some(name) => Some(name@),
                    None => None,
                },
            ) {
                Ok(expected) => candidates matches Ok(found) && found@ == expected,
                Err(error) => candidates == Err::<Vec<Backend>, UnknownBackend>(error),
            },
    {
        match variable {
            None => Ok(vec![Backend::Wayland, Backend::X11]),
            Some(name) => {
                if name == "x11".to_owned() {
                    Ok(vec![Backend::X11])
                } else if name == "wayland".to_owned() {
                    Ok(vec![Backend::Wayland])
                } else {
                    Err(UnknownBackend)
                }
            },
        }
    }

    /// The loop runs on the first of the candidates that could be connected to,
    /// where `connected` holds the outcomes of the attempts in the same order.
    pub open spec fn is_first_connected(
        candidates: Seq<Backend>,
        connected: Seq<bool>,
        chosen: Option<Backend>,
    ) -> bool {
        match chosen {
            Some(backend) => exists|i: int|
                #![trigger connected[i]]
                0 <= i < connected.len() && i < candidates.len() && connected[i] && candidates[i]
                    == backend && forall|j: int| 0 <= j < i ==> !connected[j],
            None => forall|i: int|
                0 <= i < connected.len() && i < candidates.len() ==> !connected[i],
        }
    }

    /// The backend that the loop runs on: the first of the candidates that
    /// could be connected to.
    pub fn chosen(candidates: &Vec<Backend>, connected: &Vec<bool>) -> (chosen: Option<Backend>)
        ensures
            Backend::is_first_connected(candidates@, connected@, chosen),
    {
        let mut i: usize = 0;
        while i < connected.len() && i < candidates.len()
            invariant
                i <= connected.len(),
                i <= candidates.len(),
                forall|j: int| 0 <= j < i ==> !connected[j],
            decreases connected.len() - i,
        {
            if connected[i] {
                return Some(candidates[i]);
            }
            i += 1;
        }
        None
    }
}

/// On Unix a loop runs on the backend that `WINIT_UNIX_BACKEND` asks for, where
/// it can be connected to. Where the variable is not set, it runs on Wayland if
/// that can be connected to, and otherwise on X11 if that can be. The
/// candidates are tried in order, until one connects or none is left.
pub proof fn law_unix_backend(
    variable: Option<Seq<char>>,
    wayland: bool,
    x11: bool,
    connected: Seq<bool>,
    chosen: Option<Backend>,
)
    requires
        Backend::spec_unix_candidates(variable) is Ok,
        ({
            let candidates = Backend::spec_unix_candidates(variable)->Ok_0;
            &&& connected.len() <= candidates.len()
            &&& connected.len() < candidates.len() ==> connected.len() > 0 && connected.last()
            &&& forall|i: int|
                0 <= i < connected.len() ==> #[trigger] connected[i] == if candidates[i]
                    == Backend::Wayland {
                    wayland
                } else {
                    x11
                }
            &&& Backend::is_first_connected(candidates, connected, chosen)
        }),
    ensures
        variable == Some("x11"@) ==> chosen == if x11 {
            Some(Backend::X11)
        } else {
            None
        },
        variable == Some("wayland"@) ==> chosen == if wayland {
            Some(Backend::Wayland)
        } else {
            None
        },
        variable is None ==> chosen == if wayland {
            Some(Backend::Wayland)
        } else if x11 {
            Some(Backend::X11)
        } else {
            None
        },
{
    reveal_strlit("x11");
    reveal_strlit("wayland");
    assert("x11"@.len() != "wayland"@.len());
    let candidates = Backend::spec_unix_candidates(variable)->Ok_0;
    assert(connected[0] == if candidates[0] == Backend::Wayland {
        wayland
    } else {
        x11
    });
    if connected.len() > 1 {
        assert(connected[1] == x11);
    }
}

} // verus!
