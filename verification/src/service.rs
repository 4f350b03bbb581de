//! Init-system abstraction for controlling the whisrs user service.
//!
//! whisrs is a per-session daemon, so it is managed by whatever runs the
//! user's session services: systemd or OpenRC. Everything init-specific lives
//! here: detection, the control commands and their interpretation, and the
//! command strings shown in help text.
//!
//! Running a command is the caller's job. Each query is a small state
//! machine: handed the outcomes of the commands run so far, it answers with
//! the next command to run or with its verdict.

use vstd::prelude::*;
use crate::text::{contains_text, has_substring, same_text, trim, trim_str};

verus! {

/// systemd unit name, as installed under `~/.config/systemd/user`.
pub const SYSTEMD_UNIT: &'static str = "whisrs.service";

/// OpenRC service name, as installed under `~/.config/rc/init.d`.
pub const OPENRC_SERVICE: &'static str = "whisrs";

/// Which init system manages the user's session services.
#[derive(Debug, Clone, Copy, PartialEq, Eq, Structural)]
pub enum ServiceManager {
    /// systemd user manager, driven by `systemctl --user`.
    Systemd,
    /// OpenRC in user mode, driven by `rc-service --user` (OpenRC >= 0.55).
    OpenRc,
    /// Neither detected: the daemon has to be started by hand.
    NoManager,
}

/// Outcome of an attempt to restart the daemon through the service manager.
#[derive(Debug, Clone, Copy, PartialEq, Eq, Structural)]
pub enum RestartOutcome {
    /// The restart command succeeded.
    Restarted,
    /// No whisrs service is installed: the caller should show fallback hints.
    NoService,
    /// A service manager is present but the restart command failed.
    Failed,
}

/// What the caller reports back from running a [`ServiceCommand`].
#[derive(Debug, Clone, Copy, PartialEq, Eq, Structural)]
pub enum Capture {
    /// Only whether the command exited successfully (a missing binary counts
    /// as failure).
    ExitStatus,
    /// Its standard output, whatever its exit status; none if it could not run.
    Stdout,
    /// Its standard output only if it also exited successfully.
    StdoutOnSuccess,
}

/// One command line that a query wants run.
#[derive(Debug, Clone, PartialEq, Eq)]
pub struct ServiceCommand {
    /// The program, looked up on `$PATH`.
    pub program: String,
    /// Its arguments.
    pub args: Vec<String>,
    /// What to report back.
    pub capture: Capture,
}

/// The result of running a [`ServiceCommand`].
#[derive(Debug, Clone, PartialEq, Eq)]
pub enum CommandOutcome {
    /// For [`Capture::ExitStatus`]: whether it ran and exited successfully.
    Exited(bool),
    /// For the capturing modes: the standard output, if there is one to report.
    Output(Option<String>),
}

/// A query's answer to the outcomes so far.
#[derive(Debug, Clone, PartialEq, Eq)]
pub enum Step<T> {
    /// Run this command and ask again with its outcome appended.
    Run(ServiceCommand),
    /// The query is answered.
    Done(T),
}

/// A step, with its command line taken as characters.
pub enum Planned<T> {
    /// Run `program` with `args`, reporting as `capture` says.
    Run(Seq<char>, Seq<Seq<char>>, Capture),
    /// The answer.
    Done(T),
}

/// The characters of each string, in order.
pub open spec fn arg_texts(v: Seq<String>) -> Seq<Seq<char>> {
    v.map_values(|s: String| s@)
}

impl<T> View for Step<T> {
    type V = Planned<T>;

    open spec fn view(&self) -> Planned<T> {
        match self {
            Step::Run(c) => Planned::Run(c.program@, arg_texts(c.args@), c.capture),
            Step::Done(t) => Planned::Done(*t),
        }
    }
}

/// `systemctl --user <verb> whisrs.service`.
pub open spec fn systemctl(verb: Seq<char>, capture: Capture) -> Planned<bool> {
    Planned::Run("systemctl"@, seq!["--user"@, verb, "whisrs.service"@], capture)
}

/// The command that ran and exited successfully.
pub open spec fn succeeded(o: CommandOutcome) -> bool {
    o == CommandOutcome::Exited(true)
}

/// The captured output mentions the systemd unit.
pub open spec fn lists_unit(o: CommandOutcome) -> bool {
    match o {
        CommandOutcome::Output(Some(out)) => contains_text(out@, "whisrs.service"@),
        _ => false,
    }
}

/// The captured output of `is-active` reads `active`.
pub open spec fn reports_active(o: CommandOutcome) -> bool {
    match o {
        CommandOutcome::Output(Some(out)) => trim(out@) == "active"@,
        _ => false,
    }
}

/// Whether a whisrs service is installed, as a machine over command outcomes.
///
/// systemd: `is-enabled` exits 0 for enabled, static and linked units; where
/// it does not, `list-unit-files` (whose output only counts on success) must
/// mention the unit. OpenRC: `rc-service --user -e whisrs` exits 0 when the
/// init script exists.
pub open spec fn installed_plan(m: ServiceManager, done: Seq<CommandOutcome>) -> Planned<bool> {
    match m {
        ServiceManager::Systemd => if done.len() == 0 {
            systemctl("is-enabled"@, Capture::ExitStatus)
        } else if succeeded(done[0]) {
            Planned::Done(true)
        } else if done.len() == 1 {
            systemctl("list-unit-files"@, Capture::StdoutOnSuccess)
        } else {
            Planned::Done(lists_unit(done[1]))
        },
        ServiceManager::OpenRc => if done.len() == 0 {
            Planned::Run("rc-service"@, seq!["--user"@, "-e"@, "whisrs"@], Capture::ExitStatus)
        } else {
            Planned::Done(succeeded(done[0]))
        },
        ServiceManager::NoManager => Planned::Done(false),
    }
}

/// How many outcomes the installation query reads before answering.
pub open spec fn installed_probe_len(m: ServiceManager, done: Seq<CommandOutcome>) -> int {
    match m {
        ServiceManager::Systemd => if succeeded(done[0]) {
            1
        } else {
            2
        },
        ServiceManager::OpenRc => 1,
        ServiceManager::NoManager => 0,
    }
}

/// Whether the daemon runs under the manager, as a machine over outcomes.
pub open spec fn active_plan(m: ServiceManager, done: Seq<CommandOutcome>) -> Planned<bool> {
    match m {
        ServiceManager::Systemd => if done.len() == 0 {
            systemctl("is-active"@, Capture::Stdout)
        } else {
            Planned::Done(reports_active(done[0]))
        },
        ServiceManager::OpenRc => if done.len() == 0 {
            Planned::Run(
                "rc-service"@,
                seq!["--user"@, "whisrs"@, "status"@],
                Capture::ExitStatus,
            )
        } else {
            Planned::Done(succeeded(done[0]))
        },
        ServiceManager::NoManager => Planned::Done(false),
    }
}

/// The restart command of a manager.
pub open spec fn restart_command(m: ServiceManager) -> Planned<RestartOutcome> {
    match m {
        ServiceManager::Systemd => Planned::Run(
            "systemctl"@,
            seq!["--user"@, "restart"@, "whisrs.service"@],
            Capture::ExitStatus,
        ),
        _ => Planned::Run(
            "rc-service"@,
            seq!["--user"@, "whisrs"@, "restart"@],
            Capture::ExitStatus,
        ),
    }
}

/// Restart the daemon, as a machine over outcomes: first the installation
/// query; with no service installed the answer is `NoService` and nothing
/// more runs; otherwise the restart command, whose exit status decides.
pub open spec fn restart_plan(m: ServiceManager, done: Seq<CommandOutcome>) -> Planned<
    RestartOutcome,
> {
    match installed_plan(m, done) {
        Planned::Run(p, a, c) => Planned::Run(p, a, c),
        Planned::Done(false) => Planned::Done(RestartOutcome::NoService),
        Planned::Done(true) => {
            let k = installed_probe_len(m, done);
            if done.len() == k {
                restart_command(m)
            } else if succeeded(done[k]) {
                Planned::Done(RestartOutcome::Restarted)
            } else {
                Planned::Done(RestartOutcome::Failed)
            }
        },
    }
}

/// The human-readable name of each manager.
pub open spec fn manager_name(m: ServiceManager) -> Seq<char> {
    match m {
        ServiceManager::Systemd => "systemd"@,
        ServiceManager::OpenRc => "OpenRC"@,
        ServiceManager::NoManager => "no service manager"@,
    }
}

/// The characters of an optional string slice.
pub open spec fn opt_str(o: Option<&str>) -> Option<Seq<char>> {
    match o {
        Some(s) => Some(s@),
        None => None,
    }
}

/// Where each manager's service definition lives, under the user's
/// configuration directory.
pub open spec fn unit_subdir_text(m: ServiceManager) -> Option<Seq<char>> {
    match m {
        ServiceManager::Systemd => Some("systemd/user"@),
        ServiceManager::OpenRc => Some("rc/init.d"@),
        ServiceManager::NoManager => None,
    }
}

/// The command that enables the service at login and starts it now.
pub open spec fn enable_hint_text(m: ServiceManager) -> Option<Seq<char>> {
    match m {
        ServiceManager::Systemd => Some("systemctl --user enable --now whisrs.service"@),
        ServiceManager::OpenRc => Some(
            "rc-update --user add whisrs default && rc-service --user whisrs start"@,
        ),
        ServiceManager::NoManager => None,
    }
}

/// The command that restarts the running daemon.
pub open spec fn restart_hint_text(m: ServiceManager) -> Option<Seq<char>> {
    match m {
        ServiceManager::Systemd => Some("systemctl --user restart whisrs.service"@),
        ServiceManager::OpenRc => Some("rc-service --user whisrs restart"@),
        ServiceManager::NoManager => None,
    }
}

/// The command that reports service status.
pub open spec fn status_hint_text(m: ServiceManager) -> Option<Seq<char>> {
    match m {
        ServiceManager::Systemd => Some("systemctl --user status whisrs.service"@),
        ServiceManager::OpenRc => Some("rc-service --user whisrs status"@),
        ServiceManager::NoManager => None,
    }
}

#[verifier::external_type_specification]
#[verifier::external_body]
pub struct ExPathBuf(std::path::PathBuf);

/// `dirs::config_dir`: the user's configuration directory, which on Linux it
/// takes from `$XDG_CONFIG_HOME` or `$HOME/.config`. It depends on the
/// environment, so nothing is stated of what comes back.
#[verifier::external_body]
fn config_dir() -> (r: Option<std::path::PathBuf>) {
    dirs::config_dir()
}

/// What `Path::join` makes of `base` and the relative path `rel`.
pub uninterp spec fn joined_path(base: std::path::PathBuf, rel: Seq<char>) -> std::path::PathBuf;

/// `Path::join`: `base` with `rel` adjoined. Its result depends on its two
/// arguments alone and is named [`joined_path`]; what the joined path looks
/// like is left unsaid, as a `PathBuf` has no view here.
#[verifier::external_body]
fn join_path(base: &std::path::PathBuf, rel: &str) -> (r: std::path::PathBuf)
    ensures
        r == joined_path(*base, rel@),
{
    base.join(rel)
}

/// Build a three-argument command line.
fn command(program: &str, a0: &str, a1: &str, a2: &str, capture: Capture) -> (r: ServiceCommand)
    ensures
        r.program@ == program@,
        arg_texts(r.args@) == seq![a0@, a1@, a2@],
        r.capture == capture,
{
    let mut args: Vec<String> = Vec::new();
    args.push(a0.to_owned());
    args.push(a1.to_owned());
    args.push(a2.to_owned());
    assert(arg_texts(args@) =~= seq![a0@, a1@, a2@]);
    ServiceCommand { program: program.to_owned(), args, capture }
}

/// Whether an outcome is a successful exit.
fn outcome_succeeded(o: &CommandOutcome) -> (r: bool)
    ensures
        r == succeeded(*o),
{
    match o {
        CommandOutcome::Exited(ok) => *ok,
        CommandOutcome::Output(_) => false,
    }
}

/// Every query answers after a bounded number of commands: the installation
/// query after at most two, the activity query after one, a restart after at
/// most three (the installation query, then the restart itself).
pub proof fn lemma_queries_finish(m: ServiceManager, done: Seq<CommandOutcome>)
    ensures
        done.len() >= 2 ==> installed_plan(m, done) is Done,
        done.len() >= 1 ==> active_plan(m, done) is Done,
        done.len() >= 3 ==> restart_plan(m, done) is Done,
{
}

/// With no service manager nothing is ever run: nothing is installed,
/// nothing is active, and a restart reports `NoService`.
pub proof fn lemma_unmanaged_runs_nothing(done: Seq<CommandOutcome>)
    ensures
        installed_plan(ServiceManager::NoManager, done) == Planned::<bool>::Done(false),
        active_plan(ServiceManager::NoManager, done) == Planned::<bool>::Done(false),
        restart_plan(ServiceManager::NoManager, done) == Planned::Done(RestartOutcome::NoService),
{
}

/// The restart command runs only once the installation query has found a
/// service, and a query that finds none ends the restart with `NoService`.
pub proof fn lemma_restart_needs_installed_service(m: ServiceManager, done: Seq<CommandOutcome>)
    ensures
        installed_plan(m, done) == Planned::<bool>::Done(false) ==> restart_plan(m, done)
            == Planned::Done(RestartOutcome::NoService),
        restart_plan(m, done) == restart_command(m) ==> installed_plan(m, done)
            == Planned::<bool>::Done(true),
        restart_plan(m, done) == Planned::Done(RestartOutcome::Restarted) ==> installed_plan(
            m,
            done,
        ) == Planned::<bool>::Done(true),
{
    reveal_strlit("is-enabled");
    reveal_strlit("list-unit-files");
    reveal_strlit("restart");
    reveal_strlit("-e");
    reveal_strlit("whisrs");
    if let Planned::Run(p, a, c) = installed_plan(m, done) {
        if let Planned::Run(p2, a2, c2) = restart_command(m) {
            assert("is-enabled"@.len() == 10 && "list-unit-files"@.len() == 15);
            assert("restart"@.len() == 7 && "-e"@.len() == 2 && "whisrs"@.len() == 6);
            assert(a[1].len() != a2[1].len());
        }
    }
}

/// Once the installation query has found a service and the restart command
/// has run, its exit status is the verdict, for every manager: `Restarted`
/// exactly when it exited successfully, `Failed` exactly when it did not.
pub proof fn lemma_restart_verdict_is_its_exit_status(m: ServiceManager, done: Seq<CommandOutcome>)
    requires
        installed_plan(m, done) == Planned::<bool>::Done(true),
        done.len() > installed_probe_len(m, done),
    ensures
        restart_plan(m, done) == Planned::Done(RestartOutcome::Restarted) <==> done[installed_probe_len(
            m,
            done,
        )] == CommandOutcome::Exited(true),
        restart_plan(m, done) == Planned::Done(RestartOutcome::Failed) <==> done[installed_probe_len(
            m,
            done,
        )] != CommandOutcome::Exited(true),
{
}

/// The restart verdict when the first probe already finds the service
/// (`is-enabled` or `rc-service -e` exits 0) and `outcome` is what the
/// restart command then did: restarted exactly on a successful exit, failed
/// on any other outcome.
pub proof fn lemma_restart_after_found_service(m: ServiceManager, outcome: CommandOutcome)
    requires
        m != ServiceManager::NoManager,
    ensures
        outcome == CommandOutcome::Exited(true) ==> restart_plan(
            m,
            seq![CommandOutcome::Exited(true), outcome],
        ) == Planned::Done(RestartOutcome::Restarted),
        outcome != CommandOutcome::Exited(true) ==> restart_plan(
            m,
            seq![CommandOutcome::Exited(true), outcome],
        ) == Planned::Done(RestartOutcome::Failed),
{
}

/// The activity answer, once the status command has run: systemd reports
/// the daemon running exactly when `is-active` printed `active` (surrounding
/// white space aside), so `failed`, `activating`, `inactive` or no output at
/// all mean not running; OpenRC exactly when `status` exited successfully.
pub proof fn lemma_active_exactly_when_status_says_so(m: ServiceManager, done: Seq<CommandOutcome>)
    requires
        done.len() >= 1,
    ensures
        active_plan(m, done) is Done,
        m == ServiceManager::Systemd ==> (active_plan(m, done) == Planned::<bool>::Done(true) <==> (
        done[0] matches CommandOutcome::Output(Some(out)) && trim(out@) == "active"@)),
        m == ServiceManager::OpenRc ==> (active_plan(m, done) == Planned::<bool>::Done(true) <==> done[0]
            == CommandOutcome::Exited(true)),
        m == ServiceManager::NoManager ==> active_plan(m, done) == Planned::<bool>::Done(false),
{
}

impl ServiceManager {
    /// Pick the init system from its runtime markers: whether `/run/systemd/system`
    /// exists (it does if and only if the system booted with systemd) and
    /// whether `/run/openrc` does. systemd wins when both are present: some
    /// systemd machines ship OpenRC's runtime directory via a compat package.
    pub fn detect_in(systemd_marker: bool, openrc_marker: bool) -> (r: Self)
        ensures
            r == (if systemd_marker {
                ServiceManager::Systemd
            } else if openrc_marker {
                ServiceManager::OpenRc
            } else {
                ServiceManager::NoManager
            }),
    {
        if systemd_marker {
            ServiceManager::Systemd
        } else if openrc_marker {
            ServiceManager::OpenRc
        } else {
            ServiceManager::NoManager
        }
    }

    /// Human-readable name, for log lines and prompts.
    pub fn name(self) -> (r: &'static str)
        ensures
            r@ == manager_name(self),
    {
        match self {
            ServiceManager::Systemd => "systemd",
            ServiceManager::OpenRc => "OpenRC",
            ServiceManager::NoManager => "no service manager",
        }
    }

    /// Installation query with the number of outcomes it read.
    fn installed_probe(self, done: &[CommandOutcome]) -> (r: (Step<bool>, usize))
        ensures
            r.0@ == installed_plan(self, done@),
            r.0 is Done ==> r.1 == installed_probe_len(self, done@) && r.1 <= done@.len(),
    {
        match self {
            ServiceManager::Systemd => {
                if done.len() == 0 {
                    (Step::Run(command("systemctl", "--user", "is-enabled", SYSTEMD_UNIT, Capture::ExitStatus)), 0)
                } else if outcome_succeeded(&done[0]) {
                    (Step::Done(true), 1)
                } else if done.len() == 1 {
                    (Step::Run(command("systemctl", "--user", "list-unit-files", SYSTEMD_UNIT, Capture::StdoutOnSuccess)), 1)
                } else {
                    let listed = match &done[1] {
                        CommandOutcome::Output(Some(out)) => has_substring(out.as_str(), SYSTEMD_UNIT),
                        _ => false,
                    };
                    (Step::Done(listed), 2)
                }
            },
            ServiceManager::OpenRc => {
                if done.len() == 0 {
                    (Step::Run(command("rc-service", "--user", "-e", OPENRC_SERVICE, Capture::ExitStatus)), 0)
                } else {
                    (Step::Done(outcome_succeeded(&done[0])), 1)
                }
            },
            ServiceManager::NoManager => (Step::Done(false), 0),
        }
    }

    /// Whether a whisrs service is installed for this manager: the next
    /// command to run given the outcomes of those run so far, or the answer.
    pub fn service_installed(self, done: &[CommandOutcome]) -> (r: Step<bool>)
        ensures
            r@ == installed_plan(self, done@),
    {
        self.installed_probe(done).0
    }

    /// Whether the daemon is currently running under this manager: the next
    /// command to run, or the answer. Only distinguishes active from not.
    pub fn is_active(self, done: &[CommandOutcome]) -> (r: Step<bool>)
        ensures
            r@ == active_plan(self, done@),
    {
        match self {
            ServiceManager::Systemd => {
                if done.len() == 0 {
                    Step::Run(command("systemctl", "--user", "is-active", SYSTEMD_UNIT, Capture::Stdout))
                } else {
                    let active = match &done[0] {
                        CommandOutcome::Output(Some(out)) => same_text(trim_str(out.as_str()), "active"),
                        _ => false,
                    };
                    Step::Done(active)
                }
            },
            ServiceManager::OpenRc => {
                if done.len() == 0 {
                    Step::Run(command("rc-service", "--user", OPENRC_SERVICE, "status", Capture::ExitStatus))
                } else {
                    Step::Done(outcome_succeeded(&done[0]))
                }
            },
            ServiceManager::NoManager => Step::Done(false),
        }
    }

    /// Restart the daemon, if a service is installed for this manager: the
    /// next command to run, or the outcome. With no service installed the
    /// answer is `NoService` and the restart command is never run.
    pub fn restart(self, done: &[CommandOutcome]) -> (r: Step<RestartOutcome>)
        ensures
            r@ == restart_plan(self, done@),
    {
        let (probe, k) = self.installed_probe(done);
        match probe {
            Step::Run(c) => Step::Run(c),
            Step::Done(false) => Step::Done(RestartOutcome::NoService),
            Step::Done(true) => {
                if done.len() == k {
                    match self {
                        ServiceManager::Systemd => Step::Run(command("systemctl", "--user", "restart", SYSTEMD_UNIT, Capture::ExitStatus)),
                        _ => Step::Run(command("rc-service", "--user", OPENRC_SERVICE, "restart", Capture::ExitStatus)),
                    }
                } else if outcome_succeeded(&done[k]) {
                    Step::Done(RestartOutcome::Restarted)
                } else {
                    Step::Done(RestartOutcome::Failed)
                }
            },
        }
    }

    /// Command that enables the service to start at login, and starts it now.
    /// `None` when no service manager was detected, in which case callers
    /// fall back to [`Self::manual_start_hint`].
    pub fn enable_hint(self) -> (r: Option<&'static str>)
        ensures
            opt_str(r) == enable_hint_text(self),
    {
        match self {
            ServiceManager::Systemd => Some("systemctl --user enable --now whisrs.service"),
            ServiceManager::OpenRc => Some(
                "rc-update --user add whisrs default && rc-service --user whisrs start",
            ),
            ServiceManager::NoManager => None,
        }
    }

    /// Command that restarts the running daemon.
    pub fn restart_hint(self) -> (r: Option<&'static str>)
        ensures
            opt_str(r) == restart_hint_text(self),
    {
        match self {
            ServiceManager::Systemd => Some("systemctl --user restart whisrs.service"),
            ServiceManager::OpenRc => Some("rc-service --user whisrs restart"),
            ServiceManager::NoManager => None,
        }
    }

    /// Command that reports service status.
    pub fn status_hint(self) -> (r: Option<&'static str>)
        ensures
            opt_str(r) == status_hint_text(self),
    {
        match self {
            ServiceManager::Systemd => Some("systemctl --user status whisrs.service"),
            ServiceManager::OpenRc => Some("rc-service --user whisrs status"),
            ServiceManager::NoManager => None,
        }
    }

    /// Fallback for when there is no service manager to delegate to.
    pub fn manual_start_hint(self) -> (r: &'static str)
        ensures
            r@ == "whisrsd &"@,
    {
        "whisrsd &"
    }

    /// The directory, relative to the user's configuration directory, that
    /// the service definition is installed into.
    pub fn unit_subdir(self) -> (r: Option<&'static str>)
        ensures
            opt_str(r) == unit_subdir_text(self),
    {
        match self {
            ServiceManager::Systemd => Some("systemd/user"),
            ServiceManager::OpenRc => Some("rc/init.d"),
            ServiceManager::NoManager => None,
        }
    }

    /// Directory the service definition is installed into, given the user's
    /// configuration directory: [`Self::unit_subdir`] joined onto it; none
    /// without a service manager or without a configuration directory.
    pub fn unit_dir_in(self, config: Option<std::path::PathBuf>) -> (r: Option<std::path::PathBuf>)
        ensures
            r == match (config, unit_subdir_text(self)) {
                (Some(c), Some(sub)) => Some(joined_path(c, sub)),
                _ => None,
            },
    {
        match config {
            Some(c) => match self.unit_subdir() {
                Some(sub) => Some(join_path(&c, sub)),
                None => None,
            },
            None => None,
        }
    }

    /// Directory the service definition is installed into: [`Self::unit_subdir`]
    /// joined onto the user's configuration directory; none without a
    /// service manager or without a configuration directory.
    pub fn unit_dir(self) -> (r: Option<std::path::PathBuf>)
        ensures
            r is Some ==> unit_subdir_text(self) is Some,
            r matches Some(p) ==> exists|c: std::path::PathBuf|
                p == joined_path(c, unit_subdir_text(self)->0),
            self == ServiceManager::NoManager ==> r is None,
    {
        let config = config_dir();
        let r = self.unit_dir_in(config);
        proof {
            if r is Some {
                assert(r->0 == joined_path(config->0, unit_subdir_text(self)->0));
            }
        }
        r
    }
}

} // verus!
