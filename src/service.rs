use vstd::prelude::*;

use crate::platform::ServiceRegime;

verus! {

/// Fixed text of the user unit file, before the start command.
pub const UNIT_HEAD: &'static str = "[Unit]\nDescription=SignalK Server\nAfter=network-online.target\nWants=network-online.target\n\n[Service]\nType=simple\nExecStart=";
/// Fixed text of the user unit file, after the start command.
pub const UNIT_TAIL: &'static str = "\nRestart=always\nRestartSec=10\nEnvironment=NODE_ENV=production\nEnvironment=SIGNALK_MANAGED_INSTALL=true\n\n[Install]\nWantedBy=default.target\n";
/// Launch-agent property list up to the runtime path.
pub const PLIST_HEAD: &'static str = "<?xml version=\"1.0\" encoding=\"UTF-8\"?>\n<!DOCTYPE plist PUBLIC \"-//Apple//DTD PLIST 1.0//EN\" \"http://www.apple.com/DTDs/PropertyList-1.0.dtd\">\n<plist version=\"1.0\">\n<dict>\n    <key>Label</key>\n    <string>org.signalk.server</string>\n    <key>ProgramArguments</key>\n    <array>\n        <string>";
/// Separator between two program arguments of the property list.
pub const PLIST_NEXT: &'static str = "</string>\n        <string>";
/// Property list text around the `-c` argument.
pub const PLIST_FLAG: &'static str = "</string>\n        <string>-c</string>\n        <string>";
/// Property list text after the configuration path.
pub const PLIST_TAIL: &'static str = "</string>\n    </array>\n    <key>RunAtLoad</key>\n    <true/>\n    <key>KeepAlive</key>\n    <true/>\n    <key>EnvironmentVariables</key>\n    <dict>\n        <key>NODE_ENV</key>\n        <string>production</string>\n        <key>SIGNALK_MANAGED_INSTALL</key>\n        <string>true</string>\n    </dict>\n</dict>\n</plist>\n";
/// Task definition up to the logon trigger's user.
pub const TASK_HEAD: &'static str = "<?xml version=\"1.0\" encoding=\"UTF-16\"?>\n<Task version=\"1.2\" xmlns=\"http://schemas.microsoft.com/windows/2004/02/mit/task\">\n  <RegistrationInfo>\n    <Description>SignalK Server</Description>\n  </RegistrationInfo>\n  <Triggers>\n    <LogonTrigger>\n      <Enabled>true</Enabled>\n      <UserId>";
/// Task definition between the trigger user and the principal user.
pub const TASK_PRINCIPAL: &'static str = "</UserId>\n    </LogonTrigger>\n  </Triggers>\n  <Principals>\n    <Principal id=\"Author\">\n      <UserId>";
/// Task settings and restart policy, up to the command.
pub const TASK_BODY: &'static str = "</UserId>\n      <LogonType>InteractiveToken</LogonType>\n      <RunLevel>LeastPrivilege</RunLevel>\n    </Principal>\n  </Principals>\n  <Settings>\n    <MultipleInstancesPolicy>IgnoreNew</MultipleInstancesPolicy>\n    <DisallowStartIfOnBatteries>false</DisallowStartIfOnBatteries>\n    <StopIfGoingOnBatteries>false</StopIfGoingOnBatteries>\n    <AllowHardTerminate>true</AllowHardTerminate>\n    <StartWhenAvailable>true</StartWhenAvailable>\n    <RunOnlyIfNetworkAvailable>false</RunOnlyIfNetworkAvailable>\n    <AllowStartOnDemand>true</AllowStartOnDemand>\n    <Enabled>true</Enabled>\n    <Hidden>false</Hidden>\n    <RunOnlyIfIdle>false</RunOnlyIfIdle>\n    <WakeToRun>false</WakeToRun>\n    <ExecutionTimeLimit>PT0S</ExecutionTimeLimit>\n    <Priority>7</Priority>\n    <RestartOnFailure>\n      <Interval>PT1M</Interval>\n      <Count>3</Count>\n    </RestartOnFailure>\n  </Settings>\n  <Actions Context=\"Author\">\n    <Exec>\n      <Command>";
/// Task text between the command and its arguments.
pub const TASK_ARGS: &'static str = "</Command>\n      <Arguments>";
/// Task definition after the arguments.
pub const TASK_TAIL: &'static str = "</Arguments>\n    </Exec>\n  </Actions>\n</Task>\n";

/// User identity used for the scheduled task when none can be resolved.
pub const PLACEHOLDER_USER: &'static str = "User";

pub open spec fn systemd_unit_text(config: Seq<char>, node: Seq<char>, server: Seq<char>) -> Seq<char> {
    UNIT_HEAD@ + node + " "@ + server + " -c "@ + config + UNIT_TAIL@
}

pub open spec fn launchd_plist_text(config: Seq<char>, node: Seq<char>, server: Seq<char>) -> Seq<char> {
    PLIST_HEAD@ + node + PLIST_NEXT@ + server + PLIST_FLAG@ + config + PLIST_TAIL@
}

pub open spec fn task_xml_text(
    config: Seq<char>,
    node: Seq<char>,
    server: Seq<char>,
    user: Seq<char>,
) -> Seq<char> {
    TASK_HEAD@ + user + TASK_PRINCIPAL@ + user + TASK_BODY@ + node + TASK_ARGS@ + server + " -c "@
        + config + TASK_TAIL@
}

/// Renders the user unit file that starts the server with `config_path`.
pub fn create_systemd_service(config_path: &str, node_path: &str, server_path: &str) -> (r: Result<
    String,
    String,
>)
    ensures
        r matches Ok(t) && t@ == systemd_unit_text(config_path@, node_path@, server_path@),
{
    let mut t = String::from_str(UNIT_HEAD);
    t.append(node_path);
    t.append(" ");
    t.append(server_path);
    t.append(" -c ");
    t.append(config_path);
    t.append(UNIT_TAIL);
    Ok(t)
}

/// Renders the launch-agent property list that starts the server with `config_path`.
pub fn create_launchd_plist(config_path: &str, node_path: &str, server_path: &str) -> (r: Result<
    String,
    String,
>)
    ensures
        r matches Ok(t) && t@ == launchd_plist_text(config_path@, node_path@, server_path@),
{
    let mut t = String::from_str(PLIST_HEAD);
    t.append(node_path);
    t.append(PLIST_NEXT);
    t.append(server_path);
    t.append(PLIST_FLAG);
    t.append(config_path);
    t.append(PLIST_TAIL);
    Ok(t)
}

/// Renders the scheduled-task definition that starts the server at `user`'s logon.
pub fn create_task_xml(config_path: &str, node_path: &str, server_path: &str, user: &str) -> (r:
    Result<String, String>)
    ensures
        r matches Ok(t) && t@ == task_xml_text(config_path@, node_path@, server_path@, user@),
{
    let mut t = String::from_str(TASK_HEAD);
    t.append(user);
    t.append(TASK_PRINCIPAL);
    t.append(user);
    t.append(TASK_BODY);
    t.append(node_path);
    t.append(TASK_ARGS);
    t.append(server_path);
    t.append(" -c ");
    t.append(config_path);
    t.append(TASK_TAIL);
    Ok(t)
}

/// The user the scheduled task runs for, and whether the placeholder had to
/// stand in for an identity that could not be resolved.
pub struct TaskUser {
    pub name: String,
    pub degraded: bool,
}

/// Picks the task user from the resolved identity, if any.
pub fn task_user(resolved: Option<String>) -> (r: TaskUser)
    ensures
        match resolved {
            Some(u) => r.name@ == u@ && !r.degraded,
            None => r.name@ == PLACEHOLDER_USER@ && r.degraded,
        },
{
    match resolved {
        Some(u) => TaskUser { name: u, degraded: false },
        None => TaskUser { name: String::from_str(PLACEHOLDER_USER), degraded: true },
    }
}

pub open spec fn descriptor_text(
    regime: ServiceRegime,
    config: Seq<char>,
    node: Seq<char>,
    server: Seq<char>,
    user: Seq<char>,
) -> Option<Seq<char>> {
    match regime {
        ServiceRegime::SystemdUser => Some(systemd_unit_text(config, node, server)),
        ServiceRegime::LaunchdAgent => Some(launchd_plist_text(config, node, server)),
        ServiceRegime::TaskScheduler => Some(task_xml_text(config, node, server, user)),
        ServiceRegime::Unsupported => None,
    }
}

/// Renders the descriptor of `regime`; `None` where no regime applies and
/// registration is to be skipped.
pub fn render_descriptor(
    regime: ServiceRegime,
    config_path: &str,
    node_path: &str,
    server_path: &str,
    user: &str,
) -> (r: Option<String>)
    ensures
        match descriptor_text(regime, config_path@, node_path@, server_path@, user@) {
            Some(t) => r matches Some(s) && s@ == t,
            None => r is None,
        },
{
    let rendered = match regime {
        ServiceRegime::SystemdUser => create_systemd_service(config_path, node_path, server_path),
        ServiceRegime::LaunchdAgent => create_launchd_plist(config_path, node_path, server_path),
        ServiceRegime::TaskScheduler => create_task_xml(config_path, node_path, server_path, user),
        ServiceRegime::Unsupported => {
            return None;
        },
    };
    match rendered {
        Ok(t) => Some(t),
        Err(_) => None,
    }
}

/// File name the descriptor of `regime` is written under.
pub fn descriptor_file_name(regime: ServiceRegime) -> (r: Option<&'static str>)
    ensures
        match regime {
            ServiceRegime::SystemdUser => r == Some("signalk.service"),
            ServiceRegime::LaunchdAgent => r == Some("org.signalk.server.plist"),
            ServiceRegime::TaskScheduler => r == Some("signalk-task.xml"),
            ServiceRegime::Unsupported => r is None,
        },
{
    match regime {
        ServiceRegime::SystemdUser => Some("signalk.service"),
        ServiceRegime::LaunchdAgent => Some("org.signalk.server.plist"),
        ServiceRegime::TaskScheduler => Some("signalk-task.xml"),
        ServiceRegime::Unsupported => None,
    }
}

} // verus!
