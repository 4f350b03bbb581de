//! Window tracking stub for GNOME and KDE.
//!
//! Neither desktop exposes focus tracking to an unprivileged daemon, so this
//! backend cannot answer; it says so once, at construction (the daemon logs
//! that), and otherwise keeps the save-then-restore flow running.

use vstd::prelude::*;
use super::WindowTracker;

verus! {

/// Stub window tracker for GNOME/KDE desktops.
pub struct DbusTracker {
    desktop: String,
}

impl View for DbusTracker {
    type V = Seq<char>;

    /// The desktop name the tracker was made for.
    closed spec fn view(&self) -> Seq<char> {
        self.desktop@
    }
}

impl DbusTracker {
    /// A tracker for the named desktop (`$XDG_CURRENT_DESKTOP`).
    pub fn new(desktop: &str) -> (r: Self)
        ensures
            r@ == desktop@,
    {
        DbusTracker { desktop: desktop.to_owned() }
    }
}

impl WindowTracker for DbusTracker {
    /// A placeholder id, so the caller's save-then-restore flow still runs.
    fn get_focused_window(&self) -> (r: Result<String, anyhow::Error>)
        ensures
            r matches Ok(id) && id@ == "dbus-stub"@,
    {
        Ok("dbus-stub".to_owned())
    }

    /// A no-op, deliberately `Ok`: focus restoration failing is not a reason
    /// to abandon a transcript the user already spoke.
    fn focus_window(&self, _id: &str) -> (r: Result<(), anyhow::Error>)
        ensures
            r is Ok,
    {
        Ok(())
    }

    /// Always `None`, which is what keeps terminal detection off here.
    fn get_focused_window_class(&self) -> (r: Option<String>)
        ensures
            r is None,
    {
        None
    }
}

} // verus!
