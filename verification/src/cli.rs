//! What the `whisrs` command-line client prints: state names and the
//! outcome of a daemon restart, plain or with ANSI colors when stdout is a
//! terminal.

use vstd::prelude::*;
use crate::service::{
    enable_hint_text, manager_name, restart_hint_text, RestartOutcome, ServiceManager,
};
use crate::state::{state_name, State};

verus! {

/// ANSI green.
pub const GREEN: &'static str = "\x1b[32m";
/// ANSI yellow.
pub const YELLOW: &'static str = "\x1b[33m";
/// ANSI red.
pub const RED: &'static str = "\x1b[31m";
/// ANSI cyan.
pub const CYAN: &'static str = "\x1b[36m";
/// ANSI bold.
pub const BOLD: &'static str = "\x1b[1m";
/// ANSI reset.
pub const RESET: &'static str = "\x1b[0m";

/// `text` between a color `code` and a reset when colors are on.
pub open spec fn paint(use_color: bool, code: Seq<char>, text: Seq<char>) -> Seq<char> {
    if use_color {
        code + text + RESET@
    } else {
        text
    }
}

/// The color codes each state is shown in.
pub open spec fn state_style(s: State) -> Seq<char> {
    match s {
        State::Idle => BOLD@,
        State::Recording => BOLD@ + GREEN@,
        State::Transcribing => BOLD@ + YELLOW@,
        State::Synthesizing => BOLD@ + CYAN@,
        State::Speaking => BOLD@ + GREEN@,
    }
}

/// `a` followed by `b`, as a new string.
fn join(a: &str, b: &str) -> (r: String)
    ensures
        r@ == a@ + b@,
{
    let mut s = a.to_owned();
    s.append(b);
    s
}

/// `text` painted with `code` when `use_color` is set.
fn painted(use_color: bool, code: &str, text: &str) -> (r: String)
    ensures
        r@ == paint(use_color, code@, text@),
{
    if use_color {
        let mut s = code.to_owned();
        s.append(text);
        s.append(RESET);
        s
    } else {
        text.to_owned()
    }
}

/// Format a state for display, with color when `use_color` is set.
pub fn format_state(state: State, use_color: bool) -> (r: String)
    ensures
        r@ == paint(use_color, state_style(state), state_name(state)),
{
    let style = match state {
        State::Idle => BOLD.to_owned(),
        State::Recording => join(BOLD, GREEN),
        State::Transcribing => join(BOLD, YELLOW),
        State::Synthesizing => join(BOLD, CYAN),
        State::Speaking => join(BOLD, GREEN),
    };
    painted(use_color, style.as_str(), state.as_str())
}

/// The first line of `whisrs restart`.
pub open spec fn banner_text(m: ServiceManager) -> Seq<char> {
    "Restarting whisrs daemon ("@ + manager_name(m) + ")\u{2026}"@
}

/// What `whisrs restart` prints once the restart has an outcome.
pub open spec fn outcome_text(m: ServiceManager, outcome: RestartOutcome) -> Seq<char> {
    match outcome {
        RestartOutcome::Restarted => "Daemon restarted."@,
        RestartOutcome::Failed => match restart_hint_text(m) {
            Some(h) => h + " failed."@,
            None => "restart"@ + " failed."@,
        },
        RestartOutcome::NoService => match enable_hint_text(m) {
            Some(e) => "No whisrs service installed for "@ + manager_name(m)
                + ".\n\nInstall it (run `whisrs setup` and accept the service step), then:\n\n  "@
                + e + "\n\nOr restart the daemon manually:\n\n  pkill whisrsd; sleep 0.2; whisrsd &"@,
            None => "No service manager detected (neither systemd nor OpenRC).\n\nRestart the daemon manually:\n\n  pkill whisrsd; sleep 0.2; whisrsd &"@,
        },
    }
}

/// The color of each restart outcome.
pub open spec fn outcome_color(outcome: RestartOutcome) -> Seq<char> {
    match outcome {
        RestartOutcome::Restarted => GREEN@,
        RestartOutcome::Failed => RED@,
        RestartOutcome::NoService => YELLOW@,
    }
}

/// The first line of `whisrs restart`, naming the service manager.
pub fn restart_banner(manager: ServiceManager, use_color: bool) -> (r: String)
    ensures
        r@ == paint(use_color, BOLD@, banner_text(manager)),
{
    let text = join(join("Restarting whisrs daemon (", manager.name()).as_str(), ")\u{2026}");
    painted(use_color, BOLD, text.as_str())
}

/// What `whisrs restart` reports for `outcome`; anything but `Restarted`
/// goes to standard error and makes the client exit with status 1.
pub fn restart_message(manager: ServiceManager, outcome: RestartOutcome, use_color: bool) -> (r: String)
    ensures
        r@ == paint(use_color, outcome_color(outcome), outcome_text(manager, outcome)),
{
    match outcome {
        RestartOutcome::Restarted => painted(use_color, GREEN, "Daemon restarted."),
        RestartOutcome::Failed => {
            let hint = match manager.restart_hint() {
                Some(h) => h,
                None => "restart",
            };
            let text = join(hint, " failed.");
            painted(use_color, RED, text.as_str())
        },
        RestartOutcome::NoService => {
            let text = match manager.enable_hint() {
                Some(enable) => {
                    let mut t = join("No whisrs service installed for ", manager.name());
                    t.append(".\n\nInstall it (run `whisrs setup` and accept the service step), then:\n\n  ");
                    t.append(enable);
                    t.append("\n\nOr restart the daemon manually:\n\n  pkill whisrsd; sleep 0.2; whisrsd &");
                    t
                },
                None => "No service manager detected (neither systemd nor OpenRC).\n\nRestart the daemon manually:\n\n  pkill whisrsd; sleep 0.2; whisrsd &".to_owned(),
            };
            painted(use_color, YELLOW, text.as_str())
        },
    }
}

/// What the client prints when the daemon's socket does not answer.
pub open spec fn not_running_text(m: ServiceManager) -> Seq<char> {
    "whisrsd is not running. Start it with:\n\n  whisrsd &"@ + match enable_hint_text(m) {
        Some(e) => "\n\nOr enable the service:\n\n  "@ + e,
        None => Seq::empty(),
    }
}

/// The error shown when the daemon is not running, naming the command that
/// enables the service on this machine's init system, if it has one.
pub fn not_running_message(manager: ServiceManager, use_color: bool) -> (r: String)
    ensures
        r@ == paint(use_color, RED@, not_running_text(manager)),
{
    let mut text = "whisrsd is not running. Start it with:\n\n  whisrsd &".to_owned();
    match manager.enable_hint() {
        Some(enable) => {
            text.append("\n\nOr enable the service:\n\n  ");
            text.append(enable);
        },
        None => {},
    }
    painted(use_color, RED, text.as_str())
}

/// The line the client prints when the daemon answers with an error: an
/// `error:` label, red when colors are on, then the daemon's message.
pub fn error_line(message: &str, use_color: bool) -> (r: String)
    ensures
        r@ == paint(use_color, RED@, "error:"@) + " "@ + message@,
{
    let mut line = painted(use_color, RED, "error:");
    line.append(" ");
    line.append(message);
    line
}

} // verus!
