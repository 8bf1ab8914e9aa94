use signalk_installer::platform::{get_info, regime_for_os, ServiceRegime};
use signalk_installer::service::{
    create_launchd_plist, create_systemd_service, create_task_xml, descriptor_file_name,
    render_descriptor, task_user,
};

#[test]
fn linux_uses_user_systemd() {
    let info = get_info("linux");
    assert_eq!(info.os, "linux");
    assert_eq!(info.service_manager, "systemd (user)");
    assert!(!info.requires_admin);
}

#[test]
fn macos_and_windows_labels() {
    let mac = get_info("macos");
    assert_eq!(mac.os, "macos");
    assert_eq!(mac.service_manager, "launchd (user agent)");
    let win = get_info("windows");
    assert_eq!(win.os, "windows");
    assert_eq!(win.service_manager, "Task Scheduler");
    assert!(!win.requires_admin);
}

#[test]
fn other_os_is_unsupported() {
    let info = get_info("freebsd");
    assert_eq!(info.os, "unknown");
    assert_eq!(info.service_manager, "none");
    assert_eq!(regime_for_os("freebsd"), ServiceRegime::Unsupported);
    assert_eq!(regime_for_os(""), ServiceRegime::Unsupported);
}

#[test]
fn systemd_unit_runs_server_with_config() {
    let unit = create_systemd_service("/home/u/.signalk", "/opt/node", "/opt/server").unwrap();
    assert!(unit.starts_with("[Unit]\nDescription=SignalK Server\n"));
    assert!(unit.contains("ExecStart=/opt/node /opt/server -c /home/u/.signalk\n"));
    assert!(unit.contains("Restart=always\nRestartSec=10\n"));
    assert!(unit.contains("Environment=NODE_ENV=production\n"));
    assert!(unit.contains("Environment=SIGNALK_MANAGED_INSTALL=true\n"));
    assert!(unit.ends_with("[Install]\nWantedBy=default.target\n"));
}

#[test]
fn launchd_plist_lists_arguments_in_order() {
    let plist = create_launchd_plist("/cfg", "/node", "/server").unwrap();
    assert!(plist.contains(
        "<array>\n        <string>/node</string>\n        <string>/server</string>\n        <string>-c</string>\n        <string>/cfg</string>\n    </array>"
    ));
    assert!(plist.contains("<key>RunAtLoad</key>\n    <true/>"));
    assert!(plist.contains("<key>KeepAlive</key>\n    <true/>"));
    assert!(plist.contains("<key>SIGNALK_MANAGED_INSTALL</key>\n        <string>true</string>"));
    assert!(plist.ends_with("</plist>\n"));
}

#[test]
fn task_xml_names_user_and_restart_policy() {
    let xml = create_task_xml("C:\\cfg", "C:\\node.exe", "C:\\server", "alice").unwrap();
    assert_eq!(xml.matches("<UserId>alice</UserId>").count(), 2);
    assert!(xml.contains("<Interval>PT1M</Interval>\n      <Count>3</Count>"));
    assert!(xml.contains("<RunLevel>LeastPrivilege</RunLevel>"));
    assert!(xml.contains("<Command>C:\\node.exe</Command>"));
    assert!(xml.contains("<Arguments>C:\\server -c C:\\cfg</Arguments>"));
}

#[test]
fn task_user_falls_back_to_placeholder() {
    let u = task_user(None);
    assert_eq!(u.name, "User");
    assert!(u.degraded);
    let v = task_user(Some("bob".to_string()));
    assert_eq!(v.name, "bob");
    assert!(!v.degraded);
}

#[test]
fn render_follows_regime() {
    let a = render_descriptor(ServiceRegime::SystemdUser, "c", "n", "s", "u").unwrap();
    assert_eq!(a, create_systemd_service("c", "n", "s").unwrap());
    let b = render_descriptor(ServiceRegime::TaskScheduler, "c", "n", "s", "u").unwrap();
    assert_eq!(b, create_task_xml("c", "n", "s", "u").unwrap());
    assert!(render_descriptor(ServiceRegime::Unsupported, "c", "n", "s", "u").is_none());
    assert_eq!(descriptor_file_name(ServiceRegime::LaunchdAgent), Some("org.signalk.server.plist"));
    assert_eq!(descriptor_file_name(ServiceRegime::Unsupported), None);
}
