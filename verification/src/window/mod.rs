//! Window tracking: which window has focus, and giving it back afterwards.
//!
//! The compositor-specific queries (IPC, X11 requests) are made by the
//! daemon; this module holds the trackers that need no I/O and the pure
//! logic of the others.

use vstd::prelude::*;
use crate::text::{contains_text, has_substring, same_text};

pub mod dbus;
pub mod sway;
pub mod x11;

verus! {

#[verifier::external_type_specification]
#[verifier::external_body]
pub struct ExAnyhowError(anyhow::Error);

/// Trait for tracking and restoring window focus.
pub trait WindowTracker: Send + Sync {
    /// Get the identifier of the currently focused window.
    fn get_focused_window(&self) -> Result<String, anyhow::Error>;

    /// Focus the window with the given identifier.
    fn focus_window(&self, id: &str) -> Result<(), anyhow::Error>;

    /// Get the window class of the currently focused window (e.g.
    /// "Alacritty", "firefox"), or `None` if the compositor cannot tell.
    ///
    /// Deliberately required, with no default: a backend that cannot answer
    /// has to say so with an explicit `None`.
    fn get_focused_window_class(&self) -> Option<String>;
}

/// A no-op tracker that always succeeds without doing anything.
///
/// Used as a graceful fallback when compositor detection fails.
pub struct NoopTracker;

impl WindowTracker for NoopTracker {
    fn get_focused_window(&self) -> (r: Result<String, anyhow::Error>)
        ensures
            r matches Ok(id) && id@ == "noop"@,
    {
        Ok("noop".to_owned())
    }

    fn focus_window(&self, _id: &str) -> (r: Result<(), anyhow::Error>)
        ensures
            r is Ok,
    {
        Ok(())
    }

    /// No compositor was detected, so there is no focused window to report.
    fn get_focused_window_class(&self) -> (r: Option<String>)
        ensures
            r is None,
    {
        None
    }
}

/// What `str::to_lowercase` makes of `s`.
pub uninterp spec fn lowercase(s: Seq<char>) -> Seq<char>;

/// `str::to_lowercase`: the Unicode lowercase mapping of the whole string,
/// a function of the string alone, named [`lowercase`]; the mapping itself
/// (pages of Unicode tables) is left unsaid.
#[verifier::external_body]
fn to_lowercase(s: &str) -> (r: String)
    ensures
        r@ == lowercase(s@),
{
    s.to_lowercase()
}

/// Which window-tracking backend to use.
#[derive(Debug, Clone, Copy, PartialEq, Eq, Structural)]
pub enum TrackerKind {
    /// Hyprland IPC.
    Hyprland,
    /// Niri IPC.
    Niri,
    /// Sway/i3 IPC.
    Sway,
    /// An X11 session.
    X11,
    /// The GNOME/KDE stub.
    Dbus,
    /// No compositor detected.
    Noop,
}

/// What compositor detection reads from the session environment.
#[derive(Debug, Clone)]
pub struct SessionEnv {
    /// `$HYPRLAND_INSTANCE_SIGNATURE` is set.
    pub hyprland: bool,
    /// `$NIRI_SOCKET` is set.
    pub niri: bool,
    /// `$SWAYSOCK` is set.
    pub sway: bool,
    /// `$XDG_SESSION_TYPE`, if set.
    pub session_type: Option<String>,
    /// `$XDG_CURRENT_DESKTOP`, if set.
    pub desktop: Option<String>,
}

/// A lower-cased desktop name that names GNOME or KDE.
pub open spec fn names_gnome_or_kde(lowered: Seq<char>) -> bool {
    contains_text(lowered, "gnome"@) || contains_text(lowered, "kde"@)
}

/// The backend for a desktop with no compositor IPC: the stub on GNOME or
/// KDE, otherwise none.
pub open spec fn desktop_kind(desktop: Option<Seq<char>>) -> TrackerKind {
    match desktop {
        Some(d) => if names_gnome_or_kde(lowercase(d)) {
            TrackerKind::Dbus
        } else {
            TrackerKind::Noop
        },
        None => TrackerKind::Noop,
    }
}

/// The backend detection picks first: Hyprland, Niri, Sway, an X11 session,
/// then the desktop.
pub open spec fn tracker_choice(
    hyprland: bool,
    niri: bool,
    sway: bool,
    session_type: Option<Seq<char>>,
    desktop: Option<Seq<char>>,
) -> TrackerKind {
    if hyprland {
        TrackerKind::Hyprland
    } else if niri {
        TrackerKind::Niri
    } else if sway {
        TrackerKind::Sway
    } else if session_type == Some("x11"@) {
        TrackerKind::X11
    } else {
        desktop_kind(desktop)
    }
}

/// Whether a lower-cased desktop name mentions GNOME or KDE.
pub fn is_gnome_or_kde(lowered: &str) -> (r: bool)
    ensures
        r == names_gnome_or_kde(lowered@),
{
    has_substring(lowered, "gnome") || has_substring(lowered, "kde")
}

/// The backend for `$XDG_CURRENT_DESKTOP` when no compositor IPC applies
/// (also the fallback when an X11 connection cannot be made).
pub fn desktop_tracker(desktop: Option<&str>) -> (r: TrackerKind)
    ensures
        r == desktop_kind(match desktop {
            Some(d) => Some(d@),
            None => None,
        }),
{
    match desktop {
        Some(d) => {
            let lowered = to_lowercase(d);
            if is_gnome_or_kde(lowered.as_str()) {
                TrackerKind::Dbus
            } else {
                TrackerKind::Noop
            }
        },
        None => TrackerKind::Noop,
    }
}

/// Auto-detect the compositor from the session environment, in order:
/// Hyprland, Niri, Sway, an X11 session, then GNOME or KDE (the stub), and
/// otherwise none.
pub fn choose_tracker(env: &SessionEnv) -> (r: TrackerKind)
    ensures
        r == tracker_choice(
            env.hyprland,
            env.niri,
            env.sway,
            match env.session_type {
                Some(s) => Some(s@),
                None => None,
            },
            match env.desktop {
                Some(d) => Some(d@),
                None => None,
            },
        ),
{
    if env.hyprland {
        return TrackerKind::Hyprland;
    }
    if env.niri {
        return TrackerKind::Niri;
    }
    if env.sway {
        return TrackerKind::Sway;
    }
    let is_x11 = match &env.session_type {
        Some(t) => same_text(t.as_str(), "x11"),
        None => false,
    };
    if is_x11 {
        return TrackerKind::X11;
    }
    match &env.desktop {
        Some(d) => desktop_tracker(Some(d.as_str())),
        None => desktop_tracker(None),
    }
}

} // verus!
