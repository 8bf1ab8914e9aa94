//! Provisioning logic for a user-level SignalK server install: platform
//! description, service descriptors, configuration documents, the install
//! plan with its fail-fast runner, and the self-update decisions.
use vstd::prelude::*;

pub mod config;
pub mod installer;
pub mod platform;
pub mod serial;
pub mod service;
pub mod updater;

verus! {

/// Host facts reported to the front end.
pub struct PlatformInfo {
    pub os: String,
    pub service_manager: String,
    pub requires_admin: bool,
}

/// What a look for an earlier install found.
pub struct ExistingInstall {
    pub found: bool,
    /// The configuration directory, present exactly where an install was found.
    pub config_path: Option<String>,
    /// The installed version, where the package manifest gives one.
    pub version: Option<String>,
}

/// A serial device as the front end lists it.
pub struct SerialPortInfo {
    pub path: String,
    pub description: String,
    pub manufacturer: Option<String>,
}

} // verus!
