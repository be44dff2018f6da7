//! Starting the synchroniser with the user's session: what the service
//! managers of the platforms are asked, how their answers are read, and the
//! files that register the service.

use crate::render::{args2, args3, args4, args5, push_arg};
use crate::scan::{contains, contains_text};
use crate::text::{ascii_lowercase, chars_of, to_ascii_lowercase};
use vstd::prelude::*;
use vstd::string::StringExecFns;

verus! {

/// Whether the synchroniser starts with the session.
#[derive(Debug, Clone, Copy, PartialEq, Eq, Structural)]
pub enum AutostartState {
    Enabled,
    Disabled,
    /// The platform has no service manager that is known here, or it cannot
    /// be reached.
    Unsupported,
}

/// The platform that the program runs on.
#[derive(Debug, Clone, Copy, PartialEq, Eq, Structural)]
pub enum Platform {
    /// Linux, with systemd.
    Linux,
    /// macOS, with launchd.
    MacOs,
    /// Windows, with the task scheduler.
    Windows,
    /// Any other.
    Other,
}

/// How the question to the service manager ended.
#[derive(Debug, Clone, PartialEq, Eq)]
pub enum ProbeOutcome {
    /// The tool of the service manager is not installed.
    NotFound,
    /// The tool could not be started for another reason.
    Failed { reason: String },
    /// The tool ran.
    Ran { success: bool, stdout: String, stderr: String },
}

/// Why the state could not be found out, or the service not be set up.
#[derive(Debug, Clone, PartialEq, Eq)]
pub enum AutostartError {
    /// The tool of the service manager could not be started.
    Probe { tool: String, reason: String },
    /// The synchroniser's executable was not found.
    DaemonMissing,
    /// The platform has no service manager that is known here.
    UnsupportedPlatform,
}

/// The tool that answers for the platform's service manager.
pub open spec fn tool_name(platform: Platform) -> Seq<char> {
    match platform {
        Platform::Linux => "systemctl"@,
        Platform::MacOs => "launchctl"@,
        Platform::Windows => "schtasks"@,
        Platform::Other => Seq::empty(),
    }
}

/// The tool that answers for the platform's service manager.
pub fn service_tool(platform: Platform) -> (r: String)
    ensures
        r@ == tool_name(platform),
{
    match platform {
        Platform::Linux => String::from_str("systemctl"),
        Platform::MacOs => String::from_str("launchctl"),
        Platform::Windows => String::from_str("schtasks"),
        Platform::Other => String::new(),
    }
}

/// The file name of the synchroniser's executable.
pub fn daemon_name(platform: Platform) -> (r: String)
    ensures
        r@ == (if platform == Platform::Windows {
            "obsyncgit.exe"@
        } else {
            "obsyncgit"@
        }),
{
    match platform {
        Platform::Windows => String::from_str("obsyncgit.exe"),
        _ => String::from_str("obsyncgit"),
    }
}

/// What the answer of the service manager means. Without the tool the
/// platform is unsupported. On Linux a failure to reach the session bus
/// means the same, any other failure that the service is disabled. On
/// Windows a task that is listed counts as disabled where the listing says
/// so, in capital or small letters.
pub open spec fn state_for(
    platform: Platform,
    success: bool,
    stdout: Seq<char>,
    stderr: Seq<char>,
) -> AutostartState {
    match platform {
        Platform::Other => AutostartState::Unsupported,
        Platform::Linux => if success {
            AutostartState::Enabled
        } else if contains_text(stderr, "Failed to connect to bus"@) {
            AutostartState::Unsupported
        } else {
            AutostartState::Disabled
        },
        Platform::MacOs => if success {
            AutostartState::Enabled
        } else {
            AutostartState::Disabled
        },
        Platform::Windows => if success && !contains_text(
            ascii_lowercase(stdout),
            "disabled"@,
        ) {
            AutostartState::Enabled
        } else {
            AutostartState::Disabled
        },
    }
}

/// Whether `text` holds `needle`.
fn holds(text: &str, needle: &str) -> (r: bool)
    ensures
        r == contains_text(text@, needle@),
{
    let hay = chars_of(text);
    let pin = chars_of(needle);
    contains(&hay, &pin)
}

/// Whether the synchroniser starts with the session, given how the question
/// to the platform's service manager ended. On a platform without one no
/// question is asked and the outcome does not matter.
pub fn status(platform: Platform, probe: &ProbeOutcome) -> (r: Result<
    AutostartState,
    AutostartError,
>)
    ensures
        platform == Platform::Other ==> r == Ok::<AutostartState, AutostartError>(
            AutostartState::Unsupported,
        ),
        platform != Platform::Other ==> match *probe {
            ProbeOutcome::NotFound => r == Ok::<AutostartState, AutostartError>(
                AutostartState::Unsupported,
            ),
            ProbeOutcome::Failed { reason } => r matches Err(
                AutostartError::Probe { tool, reason: why },
            ) && tool@ == tool_name(platform) && why@ == reason@,
            ProbeOutcome::Ran { success, stdout, stderr } => r == Ok::<
                AutostartState,
                AutostartError,
            >(state_for(platform, success, stdout@, stderr@)),
        },
{
    if platform == Platform::Other {
        return Ok(AutostartState::Unsupported);
    }
    match probe {
        ProbeOutcome::NotFound => Ok(AutostartState::Unsupported),
        ProbeOutcome::Failed { reason } => Err(
            AutostartError::Probe { tool: service_tool(platform), reason: reason.clone() },
        ),
        ProbeOutcome::Ran { success, stdout, stderr } => {
            let state = match platform {
                Platform::Linux => {
                    if *success {
                        AutostartState::Enabled
                    } else if holds(stderr.as_str(), "Failed to connect to bus") {
                        AutostartState::Unsupported
                    } else {
                        AutostartState::Disabled
                    }
                },
                Platform::MacOs => {
                    if *success {
                        AutostartState::Enabled
                    } else {
                        AutostartState::Disabled
                    }
                },
                _ => {
                    if *success && !holds(to_ascii_lowercase(stdout.as_str()).as_str(), "disabled") {
                        AutostartState::Enabled
                    } else {
                        AutostartState::Disabled
                    }
                },
            };
            Ok(state)
        },
    }
}

/// Whether a failed `systemctl disable` is good enough: the unit is not
/// there, which is what disabling wants.
pub open spec fn is_already_absent(stdout: Seq<char>, stderr: Seq<char>) -> bool {
    let combined = stderr + "\n"@ + stdout;
    contains_text(combined, "does not exist"@) || contains_text(combined, "not loaded"@)
}

/// Whether disabling the service went well enough: the tool succeeded, or it
/// failed because the unit is not there.
pub fn disable_succeeded(success: bool, stdout: &str, stderr: &str) -> (r: bool)
    ensures
        r == (success || is_already_absent(stdout@, stderr@)),
{
    if success {
        return true;
    }
    let mut combined = String::from_str(stderr);
    combined.append("\n");
    combined.append(stdout);
    holds(combined.as_str(), "does not exist") || holds(combined.as_str(), "not loaded")
}

/// `input` as systemd reads it back: a double quote and a backslash get a
/// backslash in front.
pub open spec fn escaped_chars(input: Seq<char>) -> Seq<char>
    decreases input.len(),
{
    if input.len() == 0 {
        Seq::empty()
    } else {
        let c = input.last();
        let head = escaped_chars(input.drop_last());
        if c == '"' || c == '\\' {
            head.push('\\').push(c)
        } else {
            head.push(c)
        }
    }
}

/// `input` in double quotes, escaped for a systemd unit file.
pub fn systemd_escape(input: &str) -> (r: String)
    ensures
        r@ == seq!['"'] + escaped_chars(input@) + seq!['"'],
{
    let chars = chars_of(input);
    let mut escaped = String::new();
    escaped.push('"');
    let mut i: usize = 0;
    assert(chars@.take(0).len() == 0);
    while i < chars.len()
        invariant
            i <= chars.len(),
            escaped@ == seq!['"'] + escaped_chars(chars@.take(i as int)),
        decreases chars.len() - i,
    {
        let c = chars[i];
        proof {
            assert(chars@.take(i + 1).drop_last() == chars@.take(i as int));
            assert(chars@.take(i + 1).last() == c);
        }
        if c == '"' || c == '\\' {
            escaped.push('\\');
        }
        escaped.push(c);
        assert(escaped@ =~= seq!['"'] + escaped_chars(chars@.take(i + 1)));
        i += 1;
    }
    assert(chars@.take(chars.len() as int) == chars@);
    escaped.push('"');
    assert(escaped@ =~= seq!['"'] + escaped_chars(input@) + seq!['"']);
    escaped
}

/// The systemd unit that runs the executable `exec` with the settings file
/// `config`, both already escaped.
pub open spec fn unit_text(exec: Seq<char>, config: Seq<char>) -> Seq<char> {
    "[Unit]\nDescription=ObsyncGit daemon\nAfter=network-online.target\nWants=network-online.target\n\n[Service]\nExecStart="@
        + exec + " run\nEnvironment=RUST_LOG=info\nEnvironment=OBSYNCGIT_CONFIG="@ + config
        + "\nRestart=on-failure\n\n[Install]\nWantedBy=default.target\n"@
}

/// The contents of the systemd unit that runs `daemon` with the settings
/// file `config_path`.
pub fn unit_file_contents(daemon: &str, config_path: &str) -> (r: String)
    ensures
        r@ == unit_text(
            seq!['"'] + escaped_chars(daemon@) + seq!['"'],
            seq!['"'] + escaped_chars(config_path@) + seq!['"'],
        ),
{
    let exec = systemd_escape(daemon);
    let config = systemd_escape(config_path);
    let mut r = String::from_str(
        "[Unit]\nDescription=ObsyncGit daemon\nAfter=network-online.target\nWants=network-online.target\n\n[Service]\nExecStart=",
    );
    r.append(exec.as_str());
    r.append(" run\nEnvironment=RUST_LOG=info\nEnvironment=OBSYNCGIT_CONFIG=");
    r.append(config.as_str());
    r.append("\nRestart=on-failure\n\n[Install]\nWantedBy=default.target\n");
    r
}

/// The command that the Windows task runs.
pub fn task_command(daemon: &str, config_path: &str) -> (r: String)
    ensures
        r@ == "\""@ + daemon@ + "\" run --config \""@ + config_path@ + "\""@,
{
    let mut r = String::from_str("\"");
    r.append(daemon);
    r.append("\" run --config \"");
    r.append(config_path);
    r.append("\"");
    r
}

/// The first of the candidates that exists: the index of the first `true`.
pub fn first_existing(exists: &Vec<bool>) -> (r: Option<usize>)
    ensures
        match r {
            Some(i) => i < exists.len() && exists[i as int] && forall|j: int|
                0 <= j < i ==> !exists[j],
            None => forall|j: int| 0 <= j < exists.len() ==> !exists[j],
        },
{
    let mut i: usize = 0;
    while i < exists.len()
        invariant
            i <= exists.len(),
            forall|j: int| 0 <= j < i ==> !exists[j],
        decreases exists.len() - i,
    {
        if exists[i] {
            return Some(i);
        }
        i += 1;
    }
    None
}

/// The name of the systemd unit.
pub open spec fn unit_name() -> Seq<char> {
    "obsyncgit.service"@
}

/// The name of the Windows task.
pub open spec fn task_name() -> Seq<char> {
    "ObsyncGit"@
}

/// Where the service is registered.
#[derive(Debug, Clone, PartialEq, Eq)]
pub enum ServiceTarget {
    /// With systemd: the directory of the user's units and the unit file in it.
    Systemd { service_dir: String, unit_path: String },
    /// With launchd: the property list of the agent and its two log files,
    /// with the directories that hold them.
    Launchd {
        agents_dir: String,
        plist_path: String,
        logs_dir: String,
        stdout_log: String,
        stderr_log: String,
    },
    /// With the Windows task scheduler.
    TaskScheduler,
    /// Nowhere: the platform has no service manager that is known here.
    Unsupported,
}

/// What to make of a tool that fails.
#[derive(Debug, Clone, Copy, PartialEq, Eq, Structural)]
pub enum OnFailure {
    /// The whole change fails.
    Fail,
    /// Nothing: the change goes on.
    Ignore,
    /// The change fails unless the tool says that the service is not there.
    AcceptAbsent,
}

/// One step of registering or unregistering the service.
#[derive(Debug, Clone, PartialEq, Eq)]
pub enum ServiceStep {
    /// Create the directory and its parents.
    CreateDir { path: String },
    /// Write the file.
    WriteFile { path: String, contents: String },
    /// Run the tool with the arguments.
    Run { tool: String, args: Vec<String>, on_failure: OnFailure },
}

/// A [`ServiceStep`] as plain text.
pub enum ServiceStepView {
    CreateDir { path: Seq<char> },
    WriteFile { path: Seq<char>, contents: Seq<char> },
    Run { tool: Seq<char>, args: Seq<Seq<char>>, on_failure: OnFailure },
}

impl View for ServiceStep {
    type V = ServiceStepView;

    open spec fn view(&self) -> ServiceStepView {
        match self {
            ServiceStep::CreateDir { path } => ServiceStepView::CreateDir { path: path@ },
            ServiceStep::WriteFile { path, contents } => ServiceStepView::WriteFile {
                path: path@,
                contents: contents@,
            },
            ServiceStep::Run { tool, args, on_failure } => ServiceStepView::Run {
                tool: tool@,
                args: args.deep_view(),
                on_failure: *on_failure,
            },
        }
    }
}

impl DeepView for ServiceStep {
    type V = ServiceStepView;

    open spec fn deep_view(&self) -> ServiceStepView {
        self@
    }
}

/// The property list that makes launchd run `daemon` with the settings file
/// `config` and the two log files.
pub open spec fn plist_text(
    daemon: Seq<char>,
    config: Seq<char>,
    stdout_log: Seq<char>,
    stderr_log: Seq<char>,
) -> Seq<char> {
    "<?xml version=\"1.0\" encoding=\"UTF-8\"?>\n<!DOCTYPE plist PUBLIC \"-//Apple Computer//DTD PLIST 1.0//EN\" \"http://www.apple.com/DTDs/PropertyList-1.0.dtd\">\n<plist version=\"1.0\">\n  <dict>\n    <key>Label</key>\n    <string>dev.obsyncgit.daemon</string>\n    <key>ProgramArguments</key>\n    <array>\n      <string>"@
        + daemon
        + "</string>\n      <string>run</string>\n      <string>--config</string>\n      <string>"@
        + config
        + "</string>\n    </array>\n    <key>RunAtLoad</key>\n    <true/>\n    <key>StandardOutPath</key>\n    <string>"@
        + stdout_log + "</string>\n    <key>StandardErrorPath</key>\n    <string>"@ + stderr_log
        + "</string>\n    <key>EnvironmentVariables</key>\n    <dict>\n      <key>OBSYNCGIT_CONFIG</key>\n      <string>"@
        + config + "</string>\n    </dict>\n  </dict>\n</plist>\n"@
}

/// The contents of the property list of the launch agent.
pub fn plist_contents(daemon: &str, config_path: &str, stdout_log: &str, stderr_log: &str) -> (r:
    String)
    ensures
        r@ == plist_text(daemon@, config_path@, stdout_log@, stderr_log@),
{
    let mut r = String::from_str(
        "<?xml version=\"1.0\" encoding=\"UTF-8\"?>\n<!DOCTYPE plist PUBLIC \"-//Apple Computer//DTD PLIST 1.0//EN\" \"http://www.apple.com/DTDs/PropertyList-1.0.dtd\">\n<plist version=\"1.0\">\n  <dict>\n    <key>Label</key>\n    <string>dev.obsyncgit.daemon</string>\n    <key>ProgramArguments</key>\n    <array>\n      <string>",
    );
    r.append(daemon);
    r.append(
        "</string>\n      <string>run</string>\n      <string>--config</string>\n      <string>",
    );
    r.append(config_path);
    r.append(
        "</string>\n    </array>\n    <key>RunAtLoad</key>\n    <true/>\n    <key>StandardOutPath</key>\n    <string>",
    );
    r.append(stdout_log);
    r.append("</string>\n    <key>StandardErrorPath</key>\n    <string>");
    r.append(stderr_log);
    r.append(
        "</string>\n    <key>EnvironmentVariables</key>\n    <dict>\n      <key>OBSYNCGIT_CONFIG</key>\n      <string>",
    );
    r.append(config_path);
    r.append("</string>\n    </dict>\n  </dict>\n</plist>\n");
    r
}

/// A run of `tool` with the arguments.
pub open spec fn run_step(tool: Seq<char>, args: Seq<Seq<char>>, on_failure: OnFailure) -> ServiceStepView {
    ServiceStepView::Run { tool, args, on_failure }
}

/// The steps that make the synchroniser start with the session, or stop
/// doing so. With systemd the unit is written, the units are reloaded and
/// the unit is enabled and started; to disable, it is disabled and stopped,
/// and its absence is no failure. With launchd the agent is written,
/// unloaded and loaded again; to disable, it is unloaded. With the task
/// scheduler an old task is deleted, whether there is one or not, the task
/// is created and enabled; to disable, it is disabled.
pub open spec fn service_steps(
    target: ServiceTarget,
    daemon: Seq<char>,
    config: Seq<char>,
    enabled: bool,
) -> Seq<ServiceStepView> {
    match target {
        ServiceTarget::Systemd { service_dir, unit_path } => if enabled {
            seq![
                ServiceStepView::CreateDir { path: service_dir@ },
                ServiceStepView::WriteFile {
                    path: unit_path@,
                    contents: unit_text(
                        seq!['"'] + escaped_chars(daemon) + seq!['"'],
                        seq!['"'] + escaped_chars(config) + seq!['"'],
                    ),
                },
                run_step("systemctl"@, seq!["--user"@, "daemon-reload"@], OnFailure::Fail),
                run_step(
                    "systemctl"@,
                    seq!["--user"@, "enable"@, "--now"@, unit_name()],
                    OnFailure::Fail,
                ),
            ]
        } else {
            seq![
                ServiceStepView::CreateDir { path: service_dir@ },
                run_step(
                    "systemctl"@,
                    seq!["--user"@, "disable"@, "--now"@, unit_name()],
                    OnFailure::AcceptAbsent,
                ),
            ]
        },
        ServiceTarget::Launchd { agents_dir, plist_path, logs_dir, stdout_log, stderr_log } => if enabled {
            seq![
                ServiceStepView::CreateDir { path: agents_dir@ },
                ServiceStepView::CreateDir { path: logs_dir@ },
                ServiceStepView::WriteFile {
                    path: plist_path@,
                    contents: plist_text(daemon, config, stdout_log@, stderr_log@),
                },
                run_step("launchctl"@, seq!["unload"@, plist_path@], OnFailure::Fail),
                run_step("launchctl"@, seq!["load"@, "-w"@, plist_path@], OnFailure::Fail),
            ]
        } else {
            seq![
                ServiceStepView::CreateDir { path: agents_dir@ },
                run_step("launchctl"@, seq!["unload"@, "-w"@, plist_path@], OnFailure::Fail),
            ]
        },
        ServiceTarget::TaskScheduler => if enabled {
            seq![
                run_step(
                    "schtasks"@,
                    seq!["/Delete"@, "/TN"@, task_name(), "/F"@],
                    OnFailure::Ignore,
                ),
                run_step(
                    "schtasks"@,
                    seq![
                        "/Create"@,
                        "/TN"@,
                        task_name(),
                        "/TR"@,
                        "\""@ + daemon + "\" run --config \""@ + config + "\""@,
                        "/SC"@,
                        "ONLOGON"@,
                        "/RL"@,
                        "LIMITED"@,
                        "/F"@,
                    ],
                    OnFailure::Fail,
                ),
                run_step(
                    "schtasks"@,
                    seq!["/Change"@, "/TN"@, task_name(), "/ENABLE"@],
                    OnFailure::Fail,
                ),
            ]
        } else {
            seq![
                run_step(
                    "schtasks"@,
                    seq!["/Change"@, "/TN"@, task_name(), "/DISABLE"@],
                    OnFailure::Fail,
                ),
            ]
        },
        ServiceTarget::Unsupported => Seq::empty(),
    }
}

/// Whether the change needs the synchroniser's executable: every change but
/// the disabling of the Windows task.
pub open spec fn needs_daemon(target: ServiceTarget, enabled: bool) -> bool {
    match target {
        ServiceTarget::Systemd { .. } | ServiceTarget::Launchd { .. } => true,
        ServiceTarget::TaskScheduler => enabled,
        ServiceTarget::Unsupported => false,
    }
}

fn run(tool: &str, args: Vec<String>, on_failure: OnFailure) -> (r: ServiceStep)
    ensures
        r@ == run_step(tool@, args.deep_view(), on_failure),
{
    ServiceStep::Run { tool: String::from_str(tool), args, on_failure }
}

/// Appends `step` to `steps`.
fn add_step(steps: &mut Vec<ServiceStep>, step: ServiceStep)
    ensures
        final(steps).deep_view() == old(steps).deep_view().push(step@),
{
    let ghost before = steps.deep_view();
    steps.push(step);
    assert(steps.deep_view() =~= before.push(step@));
}

/// The steps for systemd.
fn systemd_steps(
    service_dir: &String,
    unit_path: &String,
    daemon: &str,
    config_path: &str,
    enabled: bool,
) -> (steps: Vec<ServiceStep>)
    ensures
        steps.deep_view() == service_steps(
            ServiceTarget::Systemd { service_dir: *service_dir, unit_path: *unit_path },
            daemon@,
            config_path@,
            enabled,
        ),
{
    let mut steps: Vec<ServiceStep> = Vec::new();
    add_step(&mut steps, ServiceStep::CreateDir { path: service_dir.clone() });
    if enabled {
        add_step(
            &mut steps,
            ServiceStep::WriteFile {
                path: unit_path.clone(),
                contents: unit_file_contents(daemon, config_path),
            },
        );
        add_step(&mut steps, run("systemctl", args2("--user", "daemon-reload"), OnFailure::Fail));
        add_step(
            &mut steps,
            run(
                "systemctl",
                args4("--user", "enable", "--now", "obsyncgit.service"),
                OnFailure::Fail,
            ),
        );
    } else {
        add_step(
            &mut steps,
            run(
                "systemctl",
                args4("--user", "disable", "--now", "obsyncgit.service"),
                OnFailure::AcceptAbsent,
            ),
        );
    }
    assert(steps.deep_view() =~= service_steps(
        ServiceTarget::Systemd { service_dir: *service_dir, unit_path: *unit_path },
        daemon@,
        config_path@,
        enabled,
    ));
    steps
}

/// The steps for launchd.
fn launchd_steps(target: &ServiceTarget, daemon: &str, config_path: &str, enabled: bool) -> (steps:
    Vec<ServiceStep>)
    requires
        *target is Launchd,
    ensures
        steps.deep_view() == service_steps(*target, daemon@, config_path@, enabled),
{
    let mut steps: Vec<ServiceStep> = Vec::new();
    match target {
        ServiceTarget::Launchd { agents_dir, plist_path, logs_dir, stdout_log, stderr_log } => {
            add_step(&mut steps, ServiceStep::CreateDir { path: agents_dir.clone() });
            if enabled {
                add_step(&mut steps, ServiceStep::CreateDir { path: logs_dir.clone() });
                add_step(
                    &mut steps,
                    ServiceStep::WriteFile {
                        path: plist_path.clone(),
                        contents: plist_contents(
                            daemon,
                            config_path,
                            stdout_log.as_str(),
                            stderr_log.as_str(),
                        ),
                    },
                );
                add_step(
                    &mut steps,
                    run("launchctl", args2("unload", plist_path.as_str()), OnFailure::Fail),
                );
                add_step(
                    &mut steps,
                    run("launchctl", args3("load", "-w", plist_path.as_str()), OnFailure::Fail),
                );
            } else {
                add_step(
                    &mut steps,
                    run("launchctl", args3("unload", "-w", plist_path.as_str()), OnFailure::Fail),
                );
            }
        },
        _ => {},
    }
    assert(steps.deep_view() =~= service_steps(*target, daemon@, config_path@, enabled));
    steps
}

/// The steps that register the Windows task.
fn task_steps(daemon: &str, config_path: &str) -> (steps: Vec<ServiceStep>)
    ensures
        steps.deep_view() == service_steps(
            ServiceTarget::TaskScheduler,
            daemon@,
            config_path@,
            true,
        ),
{
    let mut steps: Vec<ServiceStep> = Vec::new();
    let command = task_command(daemon, config_path);
    add_step(
        &mut steps,
        run("schtasks", args4("/Delete", "/TN", "ObsyncGit", "/F"), OnFailure::Ignore),
    );
    let mut create = args5("/Create", "/TN", "ObsyncGit", "/TR", command.as_str());
    push_arg(&mut create, "/SC");
    push_arg(&mut create, "ONLOGON");
    push_arg(&mut create, "/RL");
    push_arg(&mut create, "LIMITED");
    push_arg(&mut create, "/F");
    assert(create.deep_view() =~= seq![
        "/Create"@,
        "/TN"@,
        task_name(),
        "/TR"@,
        "\""@ + daemon@ + "\" run --config \""@ + config_path@ + "\""@,
        "/SC"@,
        "ONLOGON"@,
        "/RL"@,
        "LIMITED"@,
        "/F"@,
    ]);
    add_step(&mut steps, run("schtasks", create, OnFailure::Fail));
    add_step(
        &mut steps,
        run("schtasks", args4("/Change", "/TN", "ObsyncGit", "/ENABLE"), OnFailure::Fail),
    );
    assert(steps.deep_view() =~= service_steps(
        ServiceTarget::TaskScheduler,
        daemon@,
        config_path@,
        true,
    ));
    steps
}

/// The steps that make the synchroniser start with the session, or stop
/// doing so. `daemon` is the synchroniser's executable, if it was found.
pub fn set_enabled(
    target: &ServiceTarget,
    daemon: Option<&str>,
    config_path: &str,
    enabled: bool,
) -> (r: Result<Vec<ServiceStep>, AutostartError>)
    ensures
        match r {
            Ok(steps) => {
                &&& !(*target is Unsupported)
                &&& needs_daemon(*target, enabled) ==> daemon is Some
                &&& steps.deep_view() == service_steps(
                    *target,
                    match daemon {
                        Some(path) => path@,
                        None => Seq::empty(),
                    },
                    config_path@,
                    enabled,
                )
            },
            Err(e) => e == (if *target is Unsupported {
                AutostartError::UnsupportedPlatform
            } else {
                AutostartError::DaemonMissing
            }) && (*target is Unsupported || (needs_daemon(*target, enabled) && daemon is None)),
        },
{
    match target {
        ServiceTarget::Unsupported => Err(AutostartError::UnsupportedPlatform),
        ServiceTarget::Systemd { service_dir, unit_path } => match daemon {
            Some(path) => Ok(systemd_steps(service_dir, unit_path, path, config_path, enabled)),
            None => Err(AutostartError::DaemonMissing),
        },
        ServiceTarget::Launchd { .. } => match daemon {
            Some(path) => Ok(launchd_steps(target, path, config_path, enabled)),
            None => Err(AutostartError::DaemonMissing),
        },
        ServiceTarget::TaskScheduler => {
            if enabled {
                match daemon {
                    Some(path) => Ok(task_steps(path, config_path)),
                    None => Err(AutostartError::DaemonMissing),
                }
            } else {
                let mut steps: Vec<ServiceStep> = Vec::new();
                add_step(
                    &mut steps,
                    run("schtasks", args4("/Change", "/TN", "ObsyncGit", "/DISABLE"), OnFailure::Fail),
                );
                assert(steps.deep_view() =~= service_steps(
                    ServiceTarget::TaskScheduler,
                    match daemon {
                        Some(path) => path@,
                        None => Seq::empty(),
                    },
                    config_path@,
                    false,
                ));
                Ok(steps)
            }
        },
    }
}

/// Whether a step went well enough for the change to go on, given how its
/// tool ended.
pub fn step_succeeded(on_failure: OnFailure, success: bool, stdout: &str, stderr: &str) -> (r: bool)
    ensures
        r == match on_failure {
            OnFailure::Fail => success,
            OnFailure::Ignore => true,
            OnFailure::AcceptAbsent => success || is_already_absent(stdout@, stderr@),
        },
{
    match on_failure {
        OnFailure::Fail => success,
        OnFailure::Ignore => true,
        OnFailure::AcceptAbsent => disable_succeeded(success, stdout, stderr),
    }
}

} // verus!
