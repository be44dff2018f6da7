use obsyncgit::autostart::{
    daemon_name, disable_succeeded, first_existing, plist_contents, service_tool, set_enabled, status,
    step_succeeded, systemd_escape, task_command, unit_file_contents, AutostartError, AutostartState,
    OnFailure, Platform, ProbeOutcome, ServiceStep, ServiceTarget,
};
use obsyncgit::config::SelfUpdateConfig;
use obsyncgit::updater::{SelfUpdateManager, UpdateMethod, UpdateStep, UpdateWorker, WorkerPhase};

fn ran(success: bool, stdout: &str, stderr: &str) -> ProbeOutcome {
    ProbeOutcome::Ran { success, stdout: stdout.to_string(), stderr: stderr.to_string() }
}

#[test]
fn the_state_on_linux() {
    assert_eq!(status(Platform::Linux, &ran(true, "enabled\n", "")), Ok(AutostartState::Enabled));
    assert_eq!(status(Platform::Linux, &ran(false, "disabled\n", "")), Ok(AutostartState::Disabled));
    assert_eq!(
        status(Platform::Linux, &ran(false, "", "Failed to connect to bus: No medium found\n")),
        Ok(AutostartState::Unsupported)
    );
    assert_eq!(
        status(Platform::Linux, &ran(true, "", "Failed to connect to bus")),
        Ok(AutostartState::Enabled)
    );
    assert_eq!(status(Platform::Linux, &ProbeOutcome::NotFound), Ok(AutostartState::Unsupported));
    assert_eq!(
        status(Platform::Linux, &ProbeOutcome::Failed { reason: "permission denied".to_string() }),
        Err(AutostartError::Probe { tool: "systemctl".to_string(), reason: "permission denied".to_string() })
    );
}

#[test]
fn the_state_on_macos_and_windows_and_elsewhere() {
    assert_eq!(status(Platform::MacOs, &ran(true, "", "")), Ok(AutostartState::Enabled));
    assert_eq!(status(Platform::MacOs, &ran(false, "", "Could not find service")), Ok(AutostartState::Disabled));
    assert_eq!(status(Platform::MacOs, &ProbeOutcome::NotFound), Ok(AutostartState::Unsupported));
    assert_eq!(status(Platform::Windows, &ran(true, "Status: Ready", "")), Ok(AutostartState::Enabled));
    assert_eq!(status(Platform::Windows, &ran(true, "Status: DISABLED", "")), Ok(AutostartState::Disabled));
    assert_eq!(status(Platform::Windows, &ran(false, "", "ERROR")), Ok(AutostartState::Disabled));
    assert_eq!(
        status(Platform::Windows, &ProbeOutcome::Failed { reason: "x".to_string() }),
        Err(AutostartError::Probe { tool: "schtasks".to_string(), reason: "x".to_string() })
    );
    assert_eq!(status(Platform::Other, &ProbeOutcome::NotFound), Ok(AutostartState::Unsupported));
    assert_eq!(
        status(Platform::Other, &ProbeOutcome::Failed { reason: "x".to_string() }),
        Ok(AutostartState::Unsupported)
    );
    assert_eq!(status(Platform::Other, &ran(true, "", "")), Ok(AutostartState::Unsupported));
}

#[test]
fn names_of_tools_and_executables() {
    assert_eq!(service_tool(Platform::Linux), "systemctl");
    assert_eq!(service_tool(Platform::MacOs), "launchctl");
    assert_eq!(service_tool(Platform::Windows), "schtasks");
    assert_eq!(service_tool(Platform::Other), "");
    assert_eq!(daemon_name(Platform::Windows), "obsyncgit.exe");
    assert_eq!(daemon_name(Platform::Linux), "obsyncgit");
    assert_eq!(daemon_name(Platform::MacOs), "obsyncgit");
    assert_eq!(daemon_name(Platform::Other), "obsyncgit");
}

#[test]
fn disabling_a_unit_that_is_not_there_is_fine() {
    assert!(disable_succeeded(true, "", "anything"));
    assert!(disable_succeeded(false, "", "Failed to disable unit: Unit file obsyncgit.service does not exist."));
    assert!(disable_succeeded(false, "Unit obsyncgit.service not loaded.", ""));
    assert!(!disable_succeeded(false, "", "Access denied"));
    assert!(!disable_succeeded(false, "loaded.", "not"));
}

#[test]
fn systemd_values_are_quoted_and_escaped() {
    assert_eq!(systemd_escape("/usr/bin/obsyncgit"), "\"/usr/bin/obsyncgit\"");
    assert_eq!(systemd_escape("a \"b\" c"), "\"a \\\"b\\\" c\"");
    assert_eq!(systemd_escape("C:\\x"), "\"C:\\\\x\"");
    assert_eq!(systemd_escape(""), "\"\"");
    assert_eq!(
        unit_file_contents("/usr/bin/obsyncgit", "/home/me/.config/obsyncgit/config.yaml"),
        "[Unit]\nDescription=ObsyncGit daemon\nAfter=network-online.target\nWants=network-online.target\n\n[Service]\nExecStart=\"/usr/bin/obsyncgit\" run\nEnvironment=RUST_LOG=info\nEnvironment=OBSYNCGIT_CONFIG=\"/home/me/.config/obsyncgit/config.yaml\"\nRestart=on-failure\n\n[Install]\nWantedBy=default.target\n"
    );
    assert_eq!(
        task_command("C:\\bin\\obsyncgit.exe", "C:\\cfg.yaml"),
        "\"C:\\bin\\obsyncgit.exe\" run --config \"C:\\cfg.yaml\""
    );
}

#[test]
fn the_first_candidate_that_exists_is_taken() {
    assert_eq!(first_existing(&vec![false, true, true]), Some(1));
    assert_eq!(first_existing(&vec![true]), Some(0));
    assert_eq!(first_existing(&vec![false, false]), None);
    assert_eq!(first_existing(&vec![]), None);
}

#[test]
fn the_manager_runs_only_where_updates_are_enabled() {
    let off = SelfUpdateConfig { enabled: false, command: None, interval_hours: Some(1) };
    assert!(SelfUpdateManager::spawn_if_enabled(&off, "/cfg.yaml").is_none());
    let on = SelfUpdateConfig { enabled: true, command: None, interval_hours: Some(1) };
    let manager = SelfUpdateManager::spawn_if_enabled(&on, "/cfg.yaml").unwrap();
    assert_eq!(manager.settings_path(), "/cfg.yaml");
    assert_eq!(manager.check_now(false), UpdateMethod::Builtin);
    assert_eq!(manager.check_now(true), UpdateMethod::Builtin);
    let custom = SelfUpdateConfig { enabled: false, command: Some("brew upgrade x".to_string()), interval_hours: None };
    let manager = SelfUpdateManager::new(&custom, "/c");
    assert_eq!(manager.check_now(false), UpdateMethod::Custom("brew upgrade x".to_string()));
}

#[test]
fn the_interval_is_at_least_an_hour_and_a_day_by_default() {
    let worker = |hours: Option<u64>| {
        SelfUpdateManager::new(&SelfUpdateConfig { enabled: true, command: None, interval_hours: hours }, "/c")
            .spawn()
    };
    assert_eq!(worker(None), UpdateWorker { interval: 86_400_000, phase: WorkerPhase::Fresh });
    assert_eq!(worker(Some(0)).interval, 3_600_000);
    assert_eq!(worker(Some(1)).interval, 3_600_000);
    assert_eq!(worker(Some(24)).interval, 86_400_000);
    assert_eq!(worker(Some(u64::MAX / 3_600_000)).interval, u64::MAX / 3_600_000 * 3_600_000);
    assert_eq!(worker(Some(u64::MAX / 3_600_000 + 1)).interval, u64::MAX);
    assert_eq!(worker(Some(u64::MAX)).interval, u64::MAX);
}

#[test]
fn the_worker_checks_at_once_and_then_once_per_interval() {
    let mut w = UpdateWorker { interval: 3_600_000, phase: WorkerPhase::Fresh };
    // the first check is made even if the end was asked for
    assert_eq!(w.next_step(1_000, true), UpdateStep::Check);
    assert_eq!(w.phase, WorkerPhase::Fresh);
    w.check_finished(2_000);
    assert_eq!(w.phase, WorkerPhase::Waiting { until: 3_602_000 });
    assert_eq!(w.next_step(2_000, false), UpdateStep::Sleep { millis: 60_000 });
    assert_eq!(w.next_step(3_542_000, false), UpdateStep::Sleep { millis: 60_000 });
    assert_eq!(w.next_step(3_542_001, false), UpdateStep::Sleep { millis: 59_999 });
    assert_eq!(w.next_step(3_601_999, false), UpdateStep::Sleep { millis: 1 });
    assert_eq!(w.next_step(3_602_000, false), UpdateStep::Check);
    w.check_finished(3_602_500);
    assert_eq!(w.phase, WorkerPhase::Waiting { until: 7_202_500 });
    assert_eq!(w.next_step(3_602_500, true), UpdateStep::Stop);
    assert_eq!(w.phase, WorkerPhase::Ended);
    assert_eq!(w.next_step(9_999_999, false), UpdateStep::Stop);
    w.check_finished(10_000_000);
    assert_eq!(w.phase, WorkerPhase::Ended);
}

#[test]
fn the_worker_stops_rather_than_checks_when_asked_to_end() {
    let mut w = UpdateWorker { interval: 3_600_000, phase: WorkerPhase::Waiting { until: 100 } };
    assert_eq!(w.next_step(100, true), UpdateStep::Stop);
    let mut late = UpdateWorker { interval: u64::MAX, phase: WorkerPhase::Fresh };
    late.check_finished(5);
    assert_eq!(late.phase, WorkerPhase::Waiting { until: u64::MAX });
}

fn run(tool: &str, args: &[&str], on_failure: OnFailure) -> ServiceStep {
    ServiceStep::Run {
        tool: tool.to_string(),
        args: args.iter().map(|a| a.to_string()).collect(),
        on_failure,
    }
}

fn systemd() -> ServiceTarget {
    ServiceTarget::Systemd {
        service_dir: "/home/me/.config/systemd/user".to_string(),
        unit_path: "/home/me/.config/systemd/user/obsyncgit.service".to_string(),
    }
}

fn launchd() -> ServiceTarget {
    ServiceTarget::Launchd {
        agents_dir: "/Users/me/Library/LaunchAgents".to_string(),
        plist_path: "/Users/me/Library/LaunchAgents/dev.obsyncgit.daemon.plist".to_string(),
        logs_dir: "/Users/me/Library/Logs".to_string(),
        stdout_log: "/Users/me/Library/Logs/obsyncgit.log".to_string(),
        stderr_log: "/Users/me/Library/Logs/obsyncgit.err.log".to_string(),
    }
}

#[test]
fn enabling_with_systemd_writes_the_unit_and_enables_it() {
    let steps = set_enabled(&systemd(), Some("/usr/bin/obsyncgit"), "/cfg.yaml", true).unwrap();
    assert_eq!(
        steps,
        vec![
            ServiceStep::CreateDir { path: "/home/me/.config/systemd/user".to_string() },
            ServiceStep::WriteFile {
                path: "/home/me/.config/systemd/user/obsyncgit.service".to_string(),
                contents: unit_file_contents("/usr/bin/obsyncgit", "/cfg.yaml"),
            },
            run("systemctl", &["--user", "daemon-reload"], OnFailure::Fail),
            run("systemctl", &["--user", "enable", "--now", "obsyncgit.service"], OnFailure::Fail),
        ]
    );
    let steps = set_enabled(&systemd(), Some("/usr/bin/obsyncgit"), "/cfg.yaml", false).unwrap();
    assert_eq!(
        steps,
        vec![
            ServiceStep::CreateDir { path: "/home/me/.config/systemd/user".to_string() },
            run("systemctl", &["--user", "disable", "--now", "obsyncgit.service"], OnFailure::AcceptAbsent),
        ]
    );
    assert_eq!(set_enabled(&systemd(), None, "/cfg.yaml", false), Err(AutostartError::DaemonMissing));
}

#[test]
fn enabling_with_launchd_writes_the_agent_and_reloads_it() {
    let plist = "/Users/me/Library/LaunchAgents/dev.obsyncgit.daemon.plist";
    let steps = set_enabled(&launchd(), Some("/opt/obsyncgit"), "/cfg.yaml", true).unwrap();
    assert_eq!(
        steps,
        vec![
            ServiceStep::CreateDir { path: "/Users/me/Library/LaunchAgents".to_string() },
            ServiceStep::CreateDir { path: "/Users/me/Library/Logs".to_string() },
            ServiceStep::WriteFile {
                path: plist.to_string(),
                contents: plist_contents(
                    "/opt/obsyncgit",
                    "/cfg.yaml",
                    "/Users/me/Library/Logs/obsyncgit.log",
                    "/Users/me/Library/Logs/obsyncgit.err.log"
                ),
            },
            run("launchctl", &["unload", plist], OnFailure::Fail),
            run("launchctl", &["load", "-w", plist], OnFailure::Fail),
        ]
    );
    let steps = set_enabled(&launchd(), Some("/opt/obsyncgit"), "/cfg.yaml", false).unwrap();
    assert_eq!(
        steps,
        vec![
            ServiceStep::CreateDir { path: "/Users/me/Library/LaunchAgents".to_string() },
            run("launchctl", &["unload", "-w", plist], OnFailure::Fail),
        ]
    );
    assert_eq!(set_enabled(&launchd(), None, "/cfg.yaml", true), Err(AutostartError::DaemonMissing));
}

#[test]
fn enabling_with_the_task_scheduler_registers_the_task_anew() {
    let steps = set_enabled(&ServiceTarget::TaskScheduler, Some("C:\\o.exe"), "C:\\c.yaml", true).unwrap();
    assert_eq!(
        steps,
        vec![
            run("schtasks", &["/Delete", "/TN", "ObsyncGit", "/F"], OnFailure::Ignore),
            run(
                "schtasks",
                &[
                    "/Create",
                    "/TN",
                    "ObsyncGit",
                    "/TR",
                    "\"C:\\o.exe\" run --config \"C:\\c.yaml\"",
                    "/SC",
                    "ONLOGON",
                    "/RL",
                    "LIMITED",
                    "/F"
                ],
                OnFailure::Fail
            ),
            run("schtasks", &["/Change", "/TN", "ObsyncGit", "/ENABLE"], OnFailure::Fail),
        ]
    );
    assert_eq!(
        set_enabled(&ServiceTarget::TaskScheduler, None, "C:\\c.yaml", false),
        Ok(vec![run("schtasks", &["/Change", "/TN", "ObsyncGit", "/DISABLE"], OnFailure::Fail)])
    );
    assert_eq!(
        set_enabled(&ServiceTarget::TaskScheduler, None, "C:\\c.yaml", true),
        Err(AutostartError::DaemonMissing)
    );
    assert_eq!(
        set_enabled(&ServiceTarget::Unsupported, Some("x"), "y", true),
        Err(AutostartError::UnsupportedPlatform)
    );
}

#[test]
fn the_property_list_names_program_settings_and_logs() {
    assert_eq!(
        plist_contents("/opt/obsyncgit", "/cfg.yaml", "/l/out.log", "/l/err.log"),
        "<?xml version=\"1.0\" encoding=\"UTF-8\"?>\n<!DOCTYPE plist PUBLIC \"-//Apple Computer//DTD PLIST 1.0//EN\" \"http://www.apple.com/DTDs/PropertyList-1.0.dtd\">\n<plist version=\"1.0\">\n  <dict>\n    <key>Label</key>\n    <string>dev.obsyncgit.daemon</string>\n    <key>ProgramArguments</key>\n    <array>\n      <string>/opt/obsyncgit</string>\n      <string>run</string>\n      <string>--config</string>\n      <string>/cfg.yaml</string>\n    </array>\n    <key>RunAtLoad</key>\n    <true/>\n    <key>StandardOutPath</key>\n    <string>/l/out.log</string>\n    <key>StandardErrorPath</key>\n    <string>/l/err.log</string>\n    <key>EnvironmentVariables</key>\n    <dict>\n      <key>OBSYNCGIT_CONFIG</key>\n      <string>/cfg.yaml</string>\n    </dict>\n  </dict>\n</plist>\n"
    );
}

#[test]
fn what_a_failing_tool_means_depends_on_the_step() {
    assert!(step_succeeded(OnFailure::Fail, true, "", ""));
    assert!(!step_succeeded(OnFailure::Fail, false, "", "Unit does not exist"));
    assert!(step_succeeded(OnFailure::Ignore, false, "", "x"));
    assert!(step_succeeded(OnFailure::AcceptAbsent, false, "", "Unit does not exist"));
    assert!(step_succeeded(OnFailure::AcceptAbsent, true, "", ""));
    assert!(!step_succeeded(OnFailure::AcceptAbsent, false, "", "denied"));
}
