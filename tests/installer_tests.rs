use std::collections::BTreeMap;

use signalk_installer::config::{InstallerConfig, NPM_CONFIG, PACKAGE_MANIFEST};
use signalk_installer::installer::{
    advance, check_existing_install, config_contents, config_file_name, get_config_dir,
    get_install_dir, installation_plan, note_text, runtime_binary_name, server_entry_path,
    status_name, step_name, Next, Note, Op, OpError, Status, Step, Target, RUNTIME_MODE,
};
use signalk_installer::platform::ServiceRegime;

fn config(mmsi: &str, auto_start: bool) -> InstallerConfig {
    InstallerConfig {
        vessel_name: "Test".to_string(),
        mmsi: mmsi.to_string(),
        http_port: 3000,
        enable_ssl: false,
        ssl_port: 3443,
        admin_user: String::new(),
        admin_password: String::new(),
        enable_auto_start: auto_start,
        serial_ports: Vec::new(),
    }
}

/// Runs a plan against an in-memory set of configuration files, with no
/// bundled resources, and returns the result and the events emitted.
fn simulate(
    plan: &Vec<Op>,
    files: &mut BTreeMap<&'static str, String>,
    cfg: &InstallerConfig,
) -> (Result<(), String>, Vec<(Step, Status)>) {
    let mut events = Vec::new();
    let mut pos = 0usize;
    loop {
        let op = plan[pos];
        let outcome: Result<(), OpError> = match op {
            Op::Emit(step, status, _) => {
                events.push((step, status));
                Ok(())
            }
            Op::Write(t) | Op::WriteIfAbsent(t) => {
                if let Some(name) = config_file_name(t) {
                    let absent = !files.contains_key(name);
                    if matches!(op, Op::Write(_)) || absent {
                        let text = config_contents(t, cfg, "urn:mrn:imo:mmsi:1").unwrap();
                        files.insert(name, text);
                    }
                }
                Ok(())
            }
            Op::RequireExists(t) => {
                if files.contains_key(config_file_name(t).unwrap()) {
                    Ok(())
                } else {
                    Err(OpError::NoLocation)
                }
            }
            _ => Ok(()),
        };
        match advance(plan, pos, ServiceRegime::SystemdUser, outcome) {
            Next::Perform(next) => pos = next,
            Next::Finished(r) => return (r, events),
        }
    }
}

#[test]
fn plan_without_auto_start_has_no_registration() {
    let plan = installation_plan(false, ServiceRegime::SystemdUser, true);
    assert!(!plan.contains(&Op::Write(Target::ServiceDescriptor)));
    assert!(!plan.contains(&Op::CreateDir(Target::ServiceDir)));
    assert!(plan.contains(&Op::Emit(Step::Service, Status::Completed, None)));
    assert_eq!(plan.len(), 20);
}

#[test]
fn plan_with_auto_start_registers_service() {
    let plan = installation_plan(true, ServiceRegime::SystemdUser, true);
    let dir = plan.iter().position(|o| *o == Op::CreateDir(Target::ServiceDir)).unwrap();
    let write = plan.iter().position(|o| *o == Op::Write(Target::ServiceDescriptor)).unwrap();
    assert!(dir < write);
    let task = installation_plan(true, ServiceRegime::TaskScheduler, false);
    assert!(task.contains(&Op::Write(Target::ServiceDescriptor)));
    assert!(!task.contains(&Op::CreateDir(Target::ServiceDir)));
    let none = installation_plan(true, ServiceRegime::Unsupported, true);
    assert!(!none.contains(&Op::Write(Target::ServiceDescriptor)));
}

#[test]
fn plan_makes_runtime_executable_on_posix() {
    let plan = installation_plan(false, ServiceRegime::SystemdUser, true);
    assert_eq!(plan[5], Op::CopyFileIfPresent(Target::Runtime));
    assert_eq!(plan[6], Op::MakeExecutableIfPresent(Target::Runtime));
    assert_eq!(RUNTIME_MODE, 0o755);
    assert_eq!(RUNTIME_MODE & 0o111, 0o111);
    let win = installation_plan(false, ServiceRegime::TaskScheduler, false);
    assert!(!win.contains(&Op::MakeExecutableIfPresent(Target::Runtime)));
}

#[test]
fn run_without_resources_completes_every_phase() {
    let cfg = config("", false);
    let plan = installation_plan(false, ServiceRegime::SystemdUser, true);
    let mut files = BTreeMap::new();
    let (result, events) = simulate(&plan, &mut files, &cfg);
    assert_eq!(result, Ok(()));
    let completed: Vec<Step> =
        events.iter().filter(|e| e.1 == Status::Completed).map(|e| e.0).collect();
    assert_eq!(completed, vec![Step::Extract, Step::Config, Step::Service, Step::Verify]);
    assert!(events.iter().all(|e| e.1 != Status::Failed));
    assert!(files.contains_key("settings.json"));
}

#[test]
fn second_run_keeps_manifest_and_npmrc() {
    let cfg = config("1", false);
    let plan = installation_plan(false, ServiceRegime::SystemdUser, true);
    let mut files = BTreeMap::new();
    files.insert("package.json", "{\"version\":\"9.9.9\"}".to_string());
    files.insert(".npmrc", "registry=local\n".to_string());
    files.insert("settings.json", "old".to_string());
    let (r1, _) = simulate(&plan, &mut files, &cfg);
    let (r2, _) = simulate(&plan, &mut files, &cfg);
    assert_eq!(r1, Ok(()));
    assert_eq!(r2, Ok(()));
    assert_eq!(files["package.json"], "{\"version\":\"9.9.9\"}");
    assert_eq!(files[".npmrc"], "registry=local\n");
    assert_ne!(files["settings.json"], "old");
    assert!(files["settings.json"].contains("\"port\": 3000"));
}

#[test]
fn first_run_writes_manifest_and_npmrc() {
    let cfg = config("1", false);
    let plan = installation_plan(false, ServiceRegime::LaunchdAgent, true);
    let mut files = BTreeMap::new();
    let (r, _) = simulate(&plan, &mut files, &cfg);
    assert_eq!(r, Ok(()));
    assert_eq!(files["package.json"], PACKAGE_MANIFEST);
    assert_eq!(files[".npmrc"], NPM_CONFIG);
    assert_eq!(NPM_CONFIG, "package-lock=false\n");
    let v: serde_json::Value = serde_json::from_str(PACKAGE_MANIFEST).unwrap();
    assert_eq!(v["name"], "signalk-config");
    assert_eq!(v["version"], "0.0.1");
    assert_eq!(v["dependencies"].as_object().unwrap().len(), 0);
}

#[test]
fn failure_stops_the_run_with_its_cause() {
    let plan = installation_plan(false, ServiceRegime::SystemdUser, true);
    assert_eq!(plan[1], Op::CreateDir(Target::ConfigDir));
    match advance(&plan, 1, ServiceRegime::SystemdUser, Err(OpError::Io("denied".to_string()))) {
        Next::Finished(Err(m)) => assert_eq!(m, "Failed to create config directory: denied"),
        _ => panic!("the run must stop"),
    }
    let settings = plan.iter().position(|o| *o == Op::Write(Target::Settings)).unwrap();
    match advance(&plan, settings, ServiceRegime::SystemdUser, Err(OpError::Io("full".to_string())))
    {
        Next::Finished(Err(m)) => assert_eq!(m, "Failed to write settings.json: full"),
        _ => panic!("the run must stop"),
    }
}

#[test]
fn verify_and_service_failures() {
    let plan = installation_plan(true, ServiceRegime::LaunchdAgent, true);
    let last = plan.len() - 2;
    assert_eq!(plan[last], Op::RequireExists(Target::Settings));
    match advance(&plan, last, ServiceRegime::LaunchdAgent, Err(OpError::NoLocation)) {
        Next::Finished(Err(m)) => {
            assert_eq!(m, "Installation verification failed: settings.json not found")
        }
        _ => panic!("the run must stop"),
    }
    let dir = plan.iter().position(|o| *o == Op::CreateDir(Target::ServiceDir)).unwrap();
    match advance(&plan, dir, ServiceRegime::LaunchdAgent, Err(OpError::NoLocation)) {
        Next::Finished(Err(m)) => assert_eq!(m, "Could not determine LaunchAgents directory"),
        _ => panic!("the run must stop"),
    }
    let write = dir + 1;
    match advance(&plan, write, ServiceRegime::LaunchdAgent, Err(OpError::Io("x".to_string()))) {
        Next::Finished(Err(m)) => assert_eq!(m, "Failed to write launchd plist: x"),
        _ => panic!("the run must stop"),
    }
}

#[test]
fn lost_event_does_not_fail_the_run() {
    let plan = installation_plan(false, ServiceRegime::SystemdUser, false);
    assert!(matches!(
        advance(&plan, 0, ServiceRegime::SystemdUser, Err(OpError::Io("gone".to_string()))),
        Next::Perform(1)
    ));
    let end = plan.len() - 1;
    assert!(matches!(
        advance(&plan, end, ServiceRegime::SystemdUser, Ok(())),
        Next::Finished(Ok(()))
    ));
}

#[test]
fn event_labels() {
    assert_eq!(step_name(Step::Extract), "extract");
    assert_eq!(step_name(Step::Verify), "verify");
    assert_eq!(status_name(Status::InProgress), "in_progress");
    assert_eq!(status_name(Status::Failed), "failed");
    assert_eq!(note_text(Note::Preparing), "Preparing installation directory...");
    assert_eq!(note_text(Note::ConfiguringAutoStart), "Configuring auto-start...");
}

#[test]
fn existing_install_detection() {
    let found = check_existing_install("/h/.signalk", true, Some("{\"version\": \"2.1.0\"}"));
    assert!(found.found);
    assert_eq!(found.config_path.as_deref(), Some("/h/.signalk"));
    assert_eq!(found.version.as_deref(), Some("2.1.0"));
    let broken = check_existing_install("/h/.signalk", true, Some("not json"));
    assert!(broken.found);
    assert_eq!(broken.version, None);
    let unread = check_existing_install("/h/.signalk", true, None);
    assert_eq!(unread.version, None);
    let none = check_existing_install("/h/.signalk", false, Some("{\"version\": \"2.1.0\"}"));
    assert!(!none.found);
    assert_eq!(none.config_path, None);
    assert_eq!(none.version, None);
}

#[test]
fn install_locations() {
    assert_eq!(get_config_dir(Some("/home/u"), "/"), "/home/u/.signalk");
    assert_eq!(get_config_dir(None, "/"), ".signalk");
    assert_eq!(
        get_install_dir(ServiceRegime::SystemdUser, Some("/home/u"), None, "/"),
        "/home/u/.local/signalk"
    );
    assert_eq!(
        get_install_dir(ServiceRegime::LaunchdAgent, Some("/Users/u"), None, "/"),
        "/Users/u/Library/SignalK"
    );
    assert_eq!(
        get_install_dir(ServiceRegime::TaskScheduler, None, Some("C:\\Local"), "\\"),
        "C:\\Local\\SignalK"
    );
    assert_eq!(get_install_dir(ServiceRegime::SystemdUser, None, None, "/"), "signalk");
    assert_eq!(get_install_dir(ServiceRegime::Unsupported, Some("/h"), None, "/"), "signalk");
    assert_eq!(server_entry_path("/i", "/"), "/i/signalk-server/bin/signalk-server");
    assert_eq!(runtime_binary_name(ServiceRegime::TaskScheduler), "node.exe");
    assert_eq!(runtime_binary_name(ServiceRegime::SystemdUser), "node");
}
