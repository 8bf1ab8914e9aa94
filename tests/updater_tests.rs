use signalk_installer::serial::{describe_port, PortKind};
use signalk_installer::updater::{
    check_for_updates, download_failure, install_update, AvailableUpdate, CheckOutcome,
    DownloadProgress,
};

fn offer() -> CheckOutcome {
    CheckOutcome::Available(AvailableUpdate {
        version: "1.2.0".to_string(),
        notes: Some("fixes".to_string()),
        download_url: "https://example.org/pkg".to_string(),
    })
}

#[test]
fn failed_check_is_folded_into_report() {
    let info = check_for_updates("1.0.0", CheckOutcome::Failed("network down".to_string())).unwrap();
    assert!(!info.update_available);
    assert_eq!(info.current_version, "1.0.0");
    assert_eq!(info.release_notes.as_deref(), Some("Update check failed: network down"));
    assert_eq!(info.latest_version, None);
    assert_eq!(info.download_url, None);
}

#[test]
fn up_to_date_report() {
    let info = check_for_updates("1.0.0", CheckOutcome::UpToDate).unwrap();
    assert!(!info.update_available);
    assert_eq!(info.release_notes, None);
    assert_eq!(info.latest_version, None);
}

#[test]
fn available_report() {
    let info = check_for_updates("1.0.0", offer()).unwrap();
    assert!(info.update_available);
    assert_eq!(info.latest_version.as_deref(), Some("1.2.0"));
    assert_eq!(info.release_notes.as_deref(), Some("fixes"));
    assert_eq!(info.download_url.as_deref(), Some("https://example.org/pkg"));
}

#[test]
fn install_without_update_fails() {
    assert_eq!(install_update(CheckOutcome::UpToDate).err().as_deref(), Some("No update available"));
    assert_eq!(
        install_update(CheckOutcome::Failed("timeout".to_string())).err().as_deref(),
        Some("Failed to check for updates: timeout")
    );
    let u = install_update(offer()).ok().unwrap();
    assert_eq!(u.version, "1.2.0");
    assert_eq!(download_failure("bad signature"), "Failed to download and install update: bad signature");
}

#[test]
fn download_progress_accumulates() {
    let mut p = DownloadProgress::new();
    assert_eq!(p.downloaded, 0);
    assert_eq!(p.total, None);
    p.record_chunk(100, None);
    p.record_chunk(50, Some(1000));
    assert_eq!(p.downloaded, 150);
    assert_eq!(p.total, Some(1000));
    p.downloaded = u64::MAX - 1;
    p.record_chunk(10, Some(1000));
    assert_eq!(p.downloaded, u64::MAX);
}

#[test]
fn port_descriptions() {
    let usb = describe_port(
        "/dev/ttyUSB0".to_string(),
        PortKind::Usb { product: None, manufacturer: Some("FTDI".to_string()) },
    );
    assert_eq!(usb.path, "/dev/ttyUSB0");
    assert_eq!(usb.description, "USB Serial Device");
    assert_eq!(usb.manufacturer.as_deref(), Some("FTDI"));
    let named = describe_port(
        "COM3".to_string(),
        PortKind::Usb { product: Some("GPS".to_string()), manufacturer: None },
    );
    assert_eq!(named.description, "GPS");
    assert_eq!(describe_port("a".to_string(), PortKind::Pci).description, "PCI Serial Device");
    assert_eq!(
        describe_port("b".to_string(), PortKind::Bluetooth).description,
        "Bluetooth Serial Device"
    );
    let unknown = describe_port("c".to_string(), PortKind::Unknown);
    assert_eq!(unknown.description, "Serial Device");
    assert_eq!(unknown.manufacturer, None);
}
