use vstd::prelude::*;

use crate::PlatformInfo;

verus! {

/// The mechanism used to start the server automatically at login.
#[derive(Clone, Copy, Debug, PartialEq, Eq, Structural)]
pub enum ServiceRegime {
    SystemdUser,
    LaunchdAgent,
    TaskScheduler,
    Unsupported,
}

pub open spec fn spec_regime_for_os(os: Seq<char>) -> ServiceRegime {
    if os == "linux"@ {
        ServiceRegime::SystemdUser
    } else if os == "macos"@ {
        ServiceRegime::LaunchdAgent
    } else if os == "windows"@ {
        ServiceRegime::TaskScheduler
    } else {
        ServiceRegime::Unsupported
    }
}

pub open spec fn spec_os_label(r: ServiceRegime) -> Seq<char> {
    match r {
        ServiceRegime::SystemdUser => "linux"@,
        ServiceRegime::LaunchdAgent => "macos"@,
        ServiceRegime::TaskScheduler => "windows"@,
        ServiceRegime::Unsupported => "unknown"@,
    }
}

pub open spec fn spec_manager_label(r: ServiceRegime) -> Seq<char> {
    match r {
        ServiceRegime::SystemdUser => "systemd (user)"@,
        ServiceRegime::LaunchdAgent => "launchd (user agent)"@,
        ServiceRegime::TaskScheduler => "Task Scheduler"@,
        ServiceRegime::Unsupported => "none"@,
    }
}

/// Selects the regime from an OS family tag such as `"linux"`.
pub fn regime_for_os(os: &str) -> (r: ServiceRegime)
    ensures
        r == spec_regime_for_os(os@),
{
    let s = String::from_str(os);
    if s == String::from_str("linux") {
        ServiceRegime::SystemdUser
    } else if s == String::from_str("macos") {
        ServiceRegime::LaunchdAgent
    } else if s == String::from_str("windows") {
        ServiceRegime::TaskScheduler
    } else {
        ServiceRegime::Unsupported
    }
}

/// Describes the host whose OS family tag is `os`. Only user-scoped
/// locations are used, so elevation is never required.
pub fn get_info(os: &str) -> (r: PlatformInfo)
    ensures
        r.os@ == spec_os_label(spec_regime_for_os(os@)),
        r.service_manager@ == spec_manager_label(spec_regime_for_os(os@)),
        !r.requires_admin,
{
    let regime = regime_for_os(os);
    let (o, m) = match regime {
        ServiceRegime::SystemdUser => ("linux", "systemd (user)"),
        ServiceRegime::LaunchdAgent => ("macos", "launchd (user agent)"),
        ServiceRegime::TaskScheduler => ("windows", "Task Scheduler"),
        ServiceRegime::Unsupported => ("unknown", "none"),
    };
    PlatformInfo { os: String::from_str(o), service_manager: String::from_str(m), requires_admin: false }
}

} // verus!
