use whisrs::service::{Capture, CommandOutcome, ServiceCommand, Step};
use std::path::PathBuf;
use whisrs::{RestartOutcome, ServiceManager};

/// The answer of a query that must not need any command.
fn answer<T: std::fmt::Debug>(step: Step<T>) -> T {
    match step {
        Step::Done(v) => v,
        Step::Run(cmd) => panic!("unexpected command {cmd:?}"),
    }
}

/// The command a query asks for.
fn command<T: std::fmt::Debug>(step: Step<T>) -> ServiceCommand {
    match step {
        Step::Run(cmd) => cmd,
        Step::Done(v) => panic!("unexpected answer {v:?}"),
    }
}

fn line(cmd: &ServiceCommand) -> String {
    let mut s = cmd.program.clone();
    for a in &cmd.args {
        s.push(' ');
        s.push_str(a);
    }
    s
}

#[test]
fn detects_systemd_from_runtime_marker() {
    assert_eq!(ServiceManager::detect_in(true, false), ServiceManager::Systemd);
}

#[test]
fn detects_openrc_from_runtime_marker() {
    assert_eq!(ServiceManager::detect_in(false, true), ServiceManager::OpenRc);
}

#[test]
fn detects_none_when_no_marker_present() {
    assert_eq!(
        ServiceManager::detect_in(false, false),
        ServiceManager::NoManager
    );
}

#[test]
fn prefers_systemd_when_both_markers_exist() {
    assert_eq!(ServiceManager::detect_in(true, true), ServiceManager::Systemd);
}

#[test]
fn no_manager_reports_nothing_installed_and_no_hints() {
    let none = ServiceManager::NoManager;
    assert!(!answer(none.service_installed(&[])));
    assert!(!answer(none.is_active(&[])));
    assert_eq!(answer(none.restart(&[])), RestartOutcome::NoService);
    assert!(none.enable_hint().is_none());
    assert!(none.restart_hint().is_none());
    assert!(none.status_hint().is_none());
}

#[test]
fn hints_name_the_right_tool_for_each_manager() {
    for (mgr, tool) in [
        (ServiceManager::Systemd, "systemctl"),
        (ServiceManager::OpenRc, "rc-service"),
    ] {
        assert!(mgr.restart_hint().unwrap().contains(tool));
        assert!(mgr.status_hint().unwrap().contains(tool));
    }
    // Enabling under OpenRC goes through rc-update, not rc-service.
    assert!(ServiceManager::OpenRc
        .enable_hint()
        .unwrap()
        .contains("rc-update"));
    assert!(ServiceManager::Systemd
        .enable_hint()
        .unwrap()
        .contains("systemctl"));
}

#[test]
fn names_and_manual_hint() {
    assert_eq!(ServiceManager::Systemd.name(), "systemd");
    assert_eq!(ServiceManager::OpenRc.name(), "OpenRC");
    assert_eq!(ServiceManager::NoManager.name(), "no service manager");
    assert_eq!(ServiceManager::Systemd.manual_start_hint(), "whisrsd &");
}

#[test]
fn systemd_installed_when_is_enabled_succeeds() {
    let m = ServiceManager::Systemd;
    let first = command(m.service_installed(&[]));
    assert_eq!(line(&first), "systemctl --user is-enabled whisrs.service");
    assert_eq!(first.capture, Capture::ExitStatus);
    assert!(answer(m.service_installed(&[CommandOutcome::Exited(true)])));
}

#[test]
fn systemd_falls_back_to_list_unit_files() {
    let m = ServiceManager::Systemd;
    let failed = [CommandOutcome::Exited(false)];
    let second = command(m.service_installed(&failed));
    assert_eq!(line(&second), "systemctl --user list-unit-files whisrs.service");
    assert_eq!(second.capture, Capture::StdoutOnSuccess);

    let listed = [
        CommandOutcome::Exited(false),
        CommandOutcome::Output(Some("UNIT FILE STATE\nwhisrs.service static\n".to_string())),
    ];
    assert!(answer(m.service_installed(&listed)));

    // A header alone (or a failed run) is no evidence.
    let header_only = [
        CommandOutcome::Exited(false),
        CommandOutcome::Output(Some("UNIT FILE STATE\n0 unit files listed.\n".to_string())),
    ];
    assert!(!answer(m.service_installed(&header_only)));
    let failed_run = [CommandOutcome::Exited(false), CommandOutcome::Output(None)];
    assert!(!answer(m.service_installed(&failed_run)));
}

#[test]
fn openrc_installed_follows_the_exit_status() {
    let m = ServiceManager::OpenRc;
    assert_eq!(line(&command(m.service_installed(&[]))), "rc-service --user -e whisrs");
    assert!(answer(m.service_installed(&[CommandOutcome::Exited(true)])));
    assert!(!answer(m.service_installed(&[CommandOutcome::Exited(false)])));
}

#[test]
fn systemd_active_reads_trimmed_output() {
    let m = ServiceManager::Systemd;
    let cmd = command(m.is_active(&[]));
    assert_eq!(line(&cmd), "systemctl --user is-active whisrs.service");
    assert_eq!(cmd.capture, Capture::Stdout);
    assert!(answer(m.is_active(&[CommandOutcome::Output(Some("active\n".to_string()))])));
    assert!(!answer(m.is_active(&[CommandOutcome::Output(Some("inactive\n".to_string()))])));
    assert!(!answer(m.is_active(&[CommandOutcome::Output(None)])));
}

#[test]
fn openrc_active_uses_status() {
    let m = ServiceManager::OpenRc;
    assert_eq!(line(&command(m.is_active(&[]))), "rc-service --user whisrs status");
    assert!(answer(m.is_active(&[CommandOutcome::Exited(true)])));
    assert!(!answer(m.is_active(&[CommandOutcome::Exited(false)])));
}

#[test]
fn restart_runs_only_with_a_service_installed() {
    let m = ServiceManager::Systemd;
    // Not installed: neither probe found the unit.
    let none = [CommandOutcome::Exited(false), CommandOutcome::Output(None)];
    assert_eq!(answer(m.restart(&none)), RestartOutcome::NoService);

    // Installed: the restart command comes next, and its status decides.
    let installed = [CommandOutcome::Exited(true)];
    assert_eq!(
        line(&command(m.restart(&installed))),
        "systemctl --user restart whisrs.service"
    );
    assert_eq!(
        answer(m.restart(&[CommandOutcome::Exited(true), CommandOutcome::Exited(true)])),
        RestartOutcome::Restarted
    );
    assert_eq!(
        answer(m.restart(&[CommandOutcome::Exited(true), CommandOutcome::Exited(false)])),
        RestartOutcome::Failed
    );

    let o = ServiceManager::OpenRc;
    assert_eq!(
        line(&command(o.restart(&[CommandOutcome::Exited(true)]))),
        "rc-service --user whisrs restart"
    );
    assert_eq!(answer(o.restart(&[CommandOutcome::Exited(false)])), RestartOutcome::NoService);
}

#[test]
fn restart_after_list_unit_files_fallback() {
    let m = ServiceManager::Systemd;
    let found = [
        CommandOutcome::Exited(false),
        CommandOutcome::Output(Some("whisrs.service enabled".to_string())),
    ];
    assert_eq!(
        line(&command(m.restart(&found))),
        "systemctl --user restart whisrs.service"
    );
    let mut done = found.to_vec();
    done.push(CommandOutcome::Exited(true));
    assert_eq!(answer(m.restart(&done)), RestartOutcome::Restarted);
}

#[test]
fn unit_dir_is_none_without_a_manager() {
    assert!(ServiceManager::NoManager.unit_dir().is_none());
}

#[test]
fn unit_subdirs_per_manager() {
    assert_eq!(ServiceManager::Systemd.unit_subdir(), Some("systemd/user"));
    assert_eq!(ServiceManager::OpenRc.unit_subdir(), Some("rc/init.d"));
    assert_eq!(ServiceManager::NoManager.unit_subdir(), None);
}

#[test]
fn unit_dir_in_joins_the_managers_subdirectory() {
    let config = PathBuf::from("/home/u/.config");
    assert_eq!(
        ServiceManager::Systemd.unit_dir_in(Some(config.clone())),
        Some(PathBuf::from("/home/u/.config/systemd/user"))
    );
    assert_eq!(
        ServiceManager::OpenRc.unit_dir_in(Some(config.clone())),
        Some(PathBuf::from("/home/u/.config/rc/init.d"))
    );
    assert_eq!(ServiceManager::NoManager.unit_dir_in(Some(config)), None);
    assert_eq!(ServiceManager::Systemd.unit_dir_in(None), None);
}
