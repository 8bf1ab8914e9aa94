use vstd::prelude::*;

use crate::SerialPortInfo;

verus! {

/// How a serial device is attached, with what a USB device reports of itself.
pub enum PortKind {
    Usb { product: Option<String>, manufacturer: Option<String> },
    Pci,
    Bluetooth,
    Unknown,
}

/// Describes the device at `path`: a USB device by its product name where
/// it gives one, every other device by its kind.
pub fn describe_port(path: String, kind: PortKind) -> (r: SerialPortInfo)
    ensures
        r.path == path,
        match kind {
            PortKind::Usb { product, manufacturer } => r.manufacturer == manufacturer && match product {
                Some(p) => r.description == p,
                None => r.description@ == "USB Serial Device"@,
            },
            PortKind::Pci => r.description@ == "PCI Serial Device"@ && r.manufacturer is None,
            PortKind::Bluetooth => r.description@ == "Bluetooth Serial Device"@ && r.manufacturer is None,
            PortKind::Unknown => r.description@ == "Serial Device"@ && r.manufacturer is None,
        },
{
    let (description, manufacturer) = match kind {
        PortKind::Usb { product, manufacturer } => {
            let d = match product {
                Some(p) => p,
                None => String::from_str("USB Serial Device"),
            };
            (d, manufacturer)
        },
        PortKind::Pci => (String::from_str("PCI Serial Device"), None),
        PortKind::Bluetooth => (String::from_str("Bluetooth Serial Device"), None),
        PortKind::Unknown => (String::from_str("Serial Device"), None),
    };
    SerialPortInfo { path, description, manufacturer }
}

} // verus!
