use vstd::prelude::*;

use crate::config::{
    base_deltas_document, base_deltas_text, settings_document, settings_text, InstallerConfig,
    NPM_CONFIG, PACKAGE_MANIFEST,
};
use crate::platform::ServiceRegime;
use crate::ExistingInstall;

verus! {

/// One of the four phases of an installation, in the order they run.
#[derive(Clone, Copy, Debug, PartialEq, Eq, Structural)]
pub enum Step {
    Extract,
    Config,
    Service,
    Verify,
}

/// Where a phase stands.
#[derive(Clone, Copy, Debug, PartialEq, Eq, Structural)]
pub enum Status {
    InProgress,
    Completed,
    Failed,
}

/// The human-readable description that goes with an `InProgress` event.
#[derive(Clone, Copy, Debug, PartialEq, Eq, Structural)]
pub enum Note {
    Preparing,
    Extracting,
    WritingConfig,
    ConfiguringAutoStart,
    Verifying,
}

/// A file or directory that an installation touches.
#[derive(Clone, Copy, Debug, PartialEq, Eq, Structural)]
pub enum Target {
    ConfigDir,
    InstallDir,
    Runtime,
    ServerBundle,
    Settings,
    BaseDeltas,
    PackageManifest,
    NpmConfig,
    ServiceDir,
    ServiceDescriptor,
}

/// One operation of an installation plan. The executor performs it and
/// reports the outcome to `advance`.
#[derive(Clone, Copy, Debug, PartialEq, Eq, Structural)]
pub enum Op {
    /// Broadcast a progress event; its delivery never fails the run.
    Emit(Step, Status, Option<Note>),
    /// Create a directory and its parents.
    CreateDir(Target),
    /// Locate the bundled resources.
    ResolveResources,
    /// Copy a bundled file, skipping it silently where it is absent.
    CopyFileIfPresent(Target),
    /// Give a copied file mode `RUNTIME_MODE`, where it was copied.
    MakeExecutableIfPresent(Target),
    /// Copy a bundled directory tree, skipping it silently where it is absent.
    CopyTreeIfPresent(Target),
    /// Write a file, replacing what was there.
    Write(Target),
    /// Write a file only where none exists yet.
    WriteIfAbsent(Target),
    /// Fail unless the file exists.
    RequireExists(Target),
}

/// Permission bits of the copied runtime: owner read/write/execute, group
/// and others read/execute.
pub const RUNTIME_MODE: u32 = 0o755;

pub open spec fn extract_ops(posix: bool) -> Seq<Op> {
    seq![
        Op::Emit(Step::Extract, Status::InProgress, Some(Note::Preparing)),
        Op::CreateDir(Target::ConfigDir),
        Op::CreateDir(Target::InstallDir),
        Op::Emit(Step::Extract, Status::InProgress, Some(Note::Extracting)),
        Op::ResolveResources,
        Op::CopyFileIfPresent(Target::Runtime),
    ] + (if posix {
        seq![Op::MakeExecutableIfPresent(Target::Runtime)]
    } else {
        seq![]
    }) + seq![
        Op::CopyTreeIfPresent(Target::ServerBundle),
        Op::Emit(Step::Extract, Status::Completed, None),
    ]
}

pub open spec fn config_ops() -> Seq<Op> {
    seq![
        Op::Emit(Step::Config, Status::InProgress, Some(Note::WritingConfig)),
        Op::Write(Target::Settings),
        Op::Write(Target::BaseDeltas),
        Op::WriteIfAbsent(Target::PackageManifest),
        Op::WriteIfAbsent(Target::NpmConfig),
        Op::Emit(Step::Config, Status::Completed, None),
    ]
}

/// What registering the service takes under `regime`: the scheduled-task
/// descriptor goes to an existing temporary directory.
pub open spec fn registration_ops(regime: ServiceRegime) -> Seq<Op> {
    match regime {
        ServiceRegime::SystemdUser => seq![
            Op::CreateDir(Target::ServiceDir),
            Op::Write(Target::ServiceDescriptor),
        ],
        ServiceRegime::LaunchdAgent => seq![
            Op::CreateDir(Target::ServiceDir),
            Op::Write(Target::ServiceDescriptor),
        ],
        ServiceRegime::TaskScheduler => seq![Op::Write(Target::ServiceDescriptor)],
        ServiceRegime::Unsupported => seq![],
    }
}

pub open spec fn service_ops(auto_start: bool, regime: ServiceRegime) -> Seq<Op> {
    seq![Op::Emit(Step::Service, Status::InProgress, Some(Note::ConfiguringAutoStart))] + (
    if auto_start {
        registration_ops(regime)
    } else {
        seq![]
    }) + seq![Op::Emit(Step::Service, Status::Completed, None)]
}

pub open spec fn verify_ops() -> Seq<Op> {
    seq![
        Op::Emit(Step::Verify, Status::InProgress, Some(Note::Verifying)),
        Op::RequireExists(Target::Settings),
        Op::Emit(Step::Verify, Status::Completed, None),
    ]
}

/// The whole installation, phase by phase.
pub open spec fn plan_spec(auto_start: bool, regime: ServiceRegime, posix: bool) -> Seq<Op> {
    extract_ops(posix) + config_ops() + service_ops(auto_start, regime) + verify_ops()
}

/// The operations of an installation with the auto-start choice
/// `auto_start`, under `regime`, on a POSIX target where `posix` holds.
pub fn installation_plan(auto_start: bool, regime: ServiceRegime, posix: bool) -> (r: Vec<Op>)
    ensures
        r@ == plan_spec(auto_start, regime, posix),
{
    let mut p: Vec<Op> = Vec::new();
    p.push(Op::Emit(Step::Extract, Status::InProgress, Some(Note::Preparing)));
    p.push(Op::CreateDir(Target::ConfigDir));
    p.push(Op::CreateDir(Target::InstallDir));
    p.push(Op::Emit(Step::Extract, Status::InProgress, Some(Note::Extracting)));
    p.push(Op::ResolveResources);
    p.push(Op::CopyFileIfPresent(Target::Runtime));
    if posix {
        p.push(Op::MakeExecutableIfPresent(Target::Runtime));
    }
    p.push(Op::CopyTreeIfPresent(Target::ServerBundle));
    p.push(Op::Emit(Step::Extract, Status::Completed, None));
    assert(p@ =~= extract_ops(posix));
    p.push(Op::Emit(Step::Config, Status::InProgress, Some(Note::WritingConfig)));
    p.push(Op::Write(Target::Settings));
    p.push(Op::Write(Target::BaseDeltas));
    p.push(Op::WriteIfAbsent(Target::PackageManifest));
    p.push(Op::WriteIfAbsent(Target::NpmConfig));
    p.push(Op::Emit(Step::Config, Status::Completed, None));
    assert(p@ =~= extract_ops(posix) + config_ops());
    p.push(Op::Emit(Step::Service, Status::InProgress, Some(Note::ConfiguringAutoStart)));
    if auto_start {
        match regime {
            ServiceRegime::SystemdUser | ServiceRegime::LaunchdAgent => {
                p.push(Op::CreateDir(Target::ServiceDir));
                p.push(Op::Write(Target::ServiceDescriptor));
            },
            ServiceRegime::TaskScheduler => {
                p.push(Op::Write(Target::ServiceDescriptor));
            },
            ServiceRegime::Unsupported => {},
        }
    }
    p.push(Op::Emit(Step::Service, Status::Completed, None));
    assert(p@ =~= extract_ops(posix) + config_ops() + service_ops(auto_start, regime));
    p.push(Op::Emit(Step::Verify, Status::InProgress, Some(Note::Verifying)));
    p.push(Op::RequireExists(Target::Settings));
    p.push(Op::Emit(Step::Verify, Status::Completed, None));
    assert(p@ =~= plan_spec(auto_start, regime, posix));
    p
}

/// Why an operation failed, as its executor reports it.
pub enum OpError {
    /// The operating system's account of an I/O failure.
    Io(String),
    /// The location the operation needs could not be determined.
    NoLocation,
}

pub open spec fn prefix_of(op: Op, regime: ServiceRegime) -> Seq<char> {
    match op {
        Op::CreateDir(Target::ConfigDir) => "Failed to create config directory: "@,
        Op::CreateDir(Target::InstallDir) => "Failed to create install directory: "@,
        Op::CreateDir(Target::ServiceDir) => match regime {
            ServiceRegime::LaunchdAgent => "Failed to create LaunchAgents directory: "@,
            _ => "Failed to create systemd directory: "@,
        },
        Op::ResolveResources => "Failed to get resource directory: "@,
        Op::CopyFileIfPresent(_) => "Failed to copy Node.js: "@,
        Op::MakeExecutableIfPresent(_) => "Failed to set node permissions: "@,
        Op::CopyTreeIfPresent(_) => "Failed to copy SignalK Server: "@,
        Op::Write(Target::Settings) => "Failed to write settings.json: "@,
        Op::Write(Target::BaseDeltas) => "Failed to write baseDeltas.json: "@,
        Op::WriteIfAbsent(Target::PackageManifest) => "Failed to write package.json: "@,
        Op::WriteIfAbsent(Target::NpmConfig) => "Failed to write .npmrc: "@,
        Op::Write(Target::ServiceDescriptor) => match regime {
            ServiceRegime::LaunchdAgent => "Failed to write launchd plist: "@,
            ServiceRegime::TaskScheduler => "Failed to write task XML: "@,
            _ => "Failed to write systemd service: "@,
        },
        _ => "Failed: "@,
    }
}

pub open spec fn no_location_text(regime: ServiceRegime) -> Seq<char> {
    match regime {
        ServiceRegime::LaunchdAgent => "Could not determine LaunchAgents directory"@,
        _ => "Could not determine systemd user directory"@,
    }
}

/// The message: no settings document after the run.
pub open spec fn verification_failed_text() -> Seq<char> {
    "Installation verification failed: settings.json not found"@
}

pub open spec fn failure_text(op: Op, regime: ServiceRegime, e: OpError) -> Seq<char> {
    if op is RequireExists {
        verification_failed_text()
    } else {
        match e {
            OpError::Io(cause) => prefix_of(op, regime) + cause@,
            OpError::NoLocation => no_location_text(regime),
        }
    }
}

fn error_prefix(op: Op, regime: ServiceRegime) -> (r: &'static str)
    ensures
        r@ == prefix_of(op, regime),
{
    match op {
        Op::CreateDir(Target::ConfigDir) => "Failed to create config directory: ",
        Op::CreateDir(Target::InstallDir) => "Failed to create install directory: ",
        Op::CreateDir(Target::ServiceDir) => match regime {
            ServiceRegime::LaunchdAgent => "Failed to create LaunchAgents directory: ",
            _ => "Failed to create systemd directory: ",
        },
        Op::ResolveResources => "Failed to get resource directory: ",
        Op::CopyFileIfPresent(_) => "Failed to copy Node.js: ",
        Op::MakeExecutableIfPresent(_) => "Failed to set node permissions: ",
        Op::CopyTreeIfPresent(_) => "Failed to copy SignalK Server: ",
        Op::Write(Target::Settings) => "Failed to write settings.json: ",
        Op::Write(Target::BaseDeltas) => "Failed to write baseDeltas.json: ",
        Op::WriteIfAbsent(Target::PackageManifest) => "Failed to write package.json: ",
        Op::WriteIfAbsent(Target::NpmConfig) => "Failed to write .npmrc: ",
        Op::Write(Target::ServiceDescriptor) => match regime {
            ServiceRegime::LaunchdAgent => "Failed to write launchd plist: ",
            ServiceRegime::TaskScheduler => "Failed to write task XML: ",
            _ => "Failed to write systemd service: ",
        },
        _ => "Failed: ",
    }
}

/// The message that ends a run whose operation `op` failed with `e`.
pub fn failure_message(op: Op, regime: ServiceRegime, e: &OpError) -> (r: String)
    ensures
        r@ == failure_text(op, regime, *e),
{
    if let Op::RequireExists(_) = op {
        return String::from_str("Installation verification failed: settings.json not found");
    }
    match e {
        OpError::Io(cause) => {
            let mut m = String::from_str(error_prefix(op, regime));
            m.append(cause.as_str());
            m
        },
        OpError::NoLocation => match regime {
            ServiceRegime::LaunchdAgent => String::from_str(
                "Could not determine LaunchAgents directory",
            ),
            _ => String::from_str("Could not determine systemd user directory"),
        },
    }
}

/// What the executor does next.
pub enum Next {
    /// Perform the operation at this position of the plan.
    Perform(usize),
    /// The run is over, with this result.
    Finished(Result<(), String>),
}

/// Decides, after the operation at `pos` ended with `outcome`, how the run
/// goes on. A failure ends the run at once, with no rollback; a progress
/// event counts as delivered whatever happened to it.
pub fn advance(plan: &Vec<Op>, pos: usize, regime: ServiceRegime, outcome: Result<(), OpError>) -> (r:
    Next)
    requires
        pos < plan@.len(),
    ensures
        (outcome is Ok || plan@[pos as int] is Emit) && pos + 1 < plan@.len() ==> r == Next::Perform(
            (pos + 1) as usize,
        ),
        (outcome is Ok || plan@[pos as int] is Emit) && pos + 1 == plan@.len() ==> r
            == Next::Finished(Ok(())),
        outcome is Err && !(plan@[pos as int] is Emit) ==> (r matches Next::Finished(Err(m))
            && m@ == failure_text(plan@[pos as int], regime, outcome->Err_0)),
{
    let op = plan[pos];
    match outcome {
        Err(e) => {
            if let Op::Emit(_, _, _) = op {
            } else {
                return Next::Finished(Err(failure_message(op, regime, &e)));
            }
        },
        Ok(()) => {},
    }
    if pos < plan.len() - 1 {
        Next::Perform(pos + 1)
    } else {
        Next::Finished(Ok(()))
    }
}

/// The wire name of a phase.
pub fn step_name(s: Step) -> (r: &'static str)
    ensures
        r@ == match s {
            Step::Extract => "extract"@,
            Step::Config => "config"@,
            Step::Service => "service"@,
            Step::Verify => "verify"@,
        },
{
    match s {
        Step::Extract => "extract",
        Step::Config => "config",
        Step::Service => "service",
        Step::Verify => "verify",
    }
}

/// The wire name of a status.
pub fn status_name(s: Status) -> (r: &'static str)
    ensures
        r@ == match s {
            Status::InProgress => "in_progress"@,
            Status::Completed => "completed"@,
            Status::Failed => "failed"@,
        },
{
    match s {
        Status::InProgress => "in_progress",
        Status::Completed => "completed",
        Status::Failed => "failed",
    }
}

/// The text shown with a progress event.
pub fn note_text(n: Note) -> (r: &'static str)
    ensures
        r@ == match n {
            Note::Preparing => "Preparing installation directory..."@,
            Note::Extracting => "Extracting Node.js and SignalK Server..."@,
            Note::WritingConfig => "Writing configuration files..."@,
            Note::ConfiguringAutoStart => "Configuring auto-start..."@,
            Note::Verifying => "Verifying installation..."@,
        },
{
    match n {
        Note::Preparing => "Preparing installation directory...",
        Note::Extracting => "Extracting Node.js and SignalK Server...",
        Note::WritingConfig => "Writing configuration files...",
        Note::ConfiguringAutoStart => "Configuring auto-start...",
        Note::Verifying => "Verifying installation...",
    }
}

/// The name of a file inside the configuration directory.
pub fn config_file_name(t: Target) -> (r: Option<&'static str>)
    ensures
        match t {
            Target::Settings => r == Some("settings.json"),
            Target::BaseDeltas => r == Some("baseDeltas.json"),
            Target::PackageManifest => r == Some("package.json"),
            Target::NpmConfig => r == Some(".npmrc"),
            _ => r is None,
        },
{
    match t {
        Target::Settings => Some("settings.json"),
        Target::BaseDeltas => Some("baseDeltas.json"),
        Target::PackageManifest => Some("package.json"),
        Target::NpmConfig => Some(".npmrc"),
        _ => None,
    }
}

/// The runtime executable's file name under `regime`.
pub fn runtime_binary_name(regime: ServiceRegime) -> (r: &'static str)
    ensures
        regime == ServiceRegime::TaskScheduler ==> r == "node.exe",
        regime != ServiceRegime::TaskScheduler ==> r == "node",
{
    match regime {
        ServiceRegime::TaskScheduler => "node.exe",
        _ => "node",
    }
}

/// Name of the server bundle, both among the resources and in the install directory.
pub const SERVER_BUNDLE: &'static str = "signalk-server";

/// What a configuration file of `t` holds for `config`, whose vessel
/// identifier is `identifier`.
pub fn config_contents(t: Target, config: &InstallerConfig, identifier: &str) -> (r: Option<String>)
    ensures
        match t {
            Target::Settings => r matches Some(s) && s@ == settings_text(
                config.http_port,
                config.enable_ssl,
                config.ssl_port,
            ),
            Target::BaseDeltas => r matches Some(s) && s@ == base_deltas_text(
                config.vessel_name@,
                identifier@,
            ),
            Target::PackageManifest => r matches Some(s) && s@ == PACKAGE_MANIFEST@,
            Target::NpmConfig => r matches Some(s) && s@ == NPM_CONFIG@,
            _ => r is None,
        },
{
    match t {
        Target::Settings => Some(settings_document(config)),
        Target::BaseDeltas => Some(base_deltas_document(config.vessel_name.as_str(), identifier)),
        Target::PackageManifest => Some(String::from_str(PACKAGE_MANIFEST)),
        Target::NpmConfig => Some(String::from_str(NPM_CONFIG)),
        _ => None,
    }
}

/// `base` followed by `name`, with `sep` between them.
pub fn join_path(base: &str, sep: &str, name: &str) -> (r: String)
    ensures
        r@ == base@ + sep@ + name@,
{
    let mut r = String::from_str(base);
    r.append(sep);
    r.append(name);
    r
}

/// The configuration directory: `.signalk` in the home directory, or in the
/// working directory where no home directory is known.
pub fn get_config_dir(home: Option<&str>, sep: &str) -> (r: String)
    ensures
        match home {
            Some(h) => r@ == h@ + sep@ + ".signalk"@,
            None => r@ == ".signalk"@,
        },
{
    match home {
        Some(h) => join_path(h, sep, ".signalk"),
        None => String::from_str(".signalk"),
    }
}

/// The user-level install directory under `regime`, given the home
/// directory and the local application-data directory where known.
pub fn get_install_dir(
    regime: ServiceRegime,
    home: Option<&str>,
    local_data: Option<&str>,
    sep: &str,
) -> (r: String)
    ensures
        match regime {
            ServiceRegime::SystemdUser => match home {
                Some(h) => r@ == h@ + sep@ + ".local"@ + sep@ + "signalk"@,
                None => r@ == "signalk"@,
            },
            ServiceRegime::LaunchdAgent => match home {
                Some(h) => r@ == h@ + sep@ + "Library"@ + sep@ + "SignalK"@,
                None => r@ == "SignalK"@,
            },
            ServiceRegime::TaskScheduler => match local_data {
                Some(d) => r@ == d@ + sep@ + "SignalK"@,
                None => r@ == "SignalK"@,
            },
            ServiceRegime::Unsupported => r@ == "signalk"@,
        },
{
    match regime {
        ServiceRegime::SystemdUser => match home {
            Some(h) => {
                let local = join_path(h, sep, ".local");
                join_path(local.as_str(), sep, "signalk")
            },
            None => String::from_str("signalk"),
        },
        ServiceRegime::LaunchdAgent => match home {
            Some(h) => {
                let lib = join_path(h, sep, "Library");
                join_path(lib.as_str(), sep, "SignalK")
            },
            None => String::from_str("SignalK"),
        },
        ServiceRegime::TaskScheduler => match local_data {
            Some(d) => join_path(d, sep, "SignalK"),
            None => String::from_str("SignalK"),
        },
        ServiceRegime::Unsupported => String::from_str("signalk"),
    }
}

/// The server entry point inside the install directory.
pub fn server_entry_path(install_dir: &str, sep: &str) -> (r: String)
    ensures
        r@ == install_dir@ + sep@ + SERVER_BUNDLE@ + sep@ + "bin"@ + sep@ + SERVER_BUNDLE@,
{
    let a = join_path(install_dir, sep, SERVER_BUNDLE);
    let b = join_path(a.as_str(), sep, "bin");
    join_path(b.as_str(), sep, SERVER_BUNDLE)
}

/// The `version` string at the top level of a JSON manifest, where the text
/// parses and holds one.
pub uninterp spec fn manifest_version_of(text: Seq<char>) -> Option<Seq<char>>;

/// Relies on serde_json::from_str into a `serde_json::Value`, then
/// `Value::get("version")` and `Value::as_str`: the version string of the
/// manifest, or nothing where the text does not parse or holds none.
#[verifier::external_body]
fn manifest_version(text: &str) -> (r: Option<String>)
    ensures
        match manifest_version_of(text@) {
            Some(v) => r matches Some(s) && s@ == v,
            None => r is None,
        },
{
    serde_json::from_str::<serde_json::Value>(text).ok().and_then(
        |j| j.get("version").and_then(|v| v.as_str().map(String::from)),
    )
}

/// Reports whether an install exists in `config_dir`: it does exactly where
/// the settings document is present. Its version comes from the package
/// manifest's text where that could be read and parsed.
pub fn check_existing_install(
    config_dir: &str,
    settings_present: bool,
    manifest_text: Option<&str>,
) -> (r: ExistingInstall)
    ensures
        r.found == settings_present,
        settings_present ==> (r.config_path matches Some(p) && p@ == config_dir@),
        !settings_present ==> r.config_path is None,
        match (settings_present, manifest_text) {
            (true, Some(t)) => match manifest_version_of(t@) {
                Some(v) => r.version matches Some(s) && s@ == v,
                None => r.version is None,
            },
            _ => r.version is None,
        },
{
    if settings_present {
        let version = match manifest_text {
            Some(t) => manifest_version(t),
            None => None,
        };
        ExistingInstall { found: true, config_path: Some(String::from_str(config_dir)), version }
    } else {
        ExistingInstall { found: false, config_path: None, version: None }
    }
}

/// What file `t` holds after `op`, where it held `before` and a write of it
/// would put `contents` there.
pub open spec fn file_effect(op: Op, t: Target, before: Option<Seq<char>>, contents: Seq<char>) -> Option<
    Seq<char>,
> {
    if op == Op::Write(t) {
        Some(contents)
    } else if op == Op::WriteIfAbsent(t) && before is None {
        Some(contents)
    } else {
        before
    }
}

/// What file `t` holds after all of `ops` succeeded, where it held `before`.
pub open spec fn file_after(ops: Seq<Op>, t: Target, before: Option<Seq<char>>, contents: Seq<char>) -> Option<
    Seq<char>,
>
    decreases ops.len(),
{
    if ops.len() == 0 {
        before
    } else {
        file_effect(ops.last(), t, file_after(ops.drop_last(), t, before, contents), contents)
    }
}

proof fn lemma_absent_stays_or_written(ops: Seq<Op>, t: Target, contents: Seq<char>)
    ensures
        file_after(ops, t, None, contents) is None || file_after(ops, t, None, contents) == Some(
            contents,
        ),
    decreases ops.len(),
{
    if ops.len() > 0 {
        lemma_absent_stays_or_written(ops.drop_last(), t, contents);
    }
}

proof fn lemma_kept_without_write(ops: Seq<Op>, t: Target, before: Option<Seq<char>>, contents: Seq<char>)
    requires
        before is Some,
        forall|i: int| 0 <= i < ops.len() ==> ops[i] != Op::Write(t),
    ensures
        file_after(ops, t, before, contents) == before,
    decreases ops.len(),
{
    if ops.len() > 0 {
        lemma_kept_without_write(ops.drop_last(), t, before, contents);
    }
}

proof fn lemma_written(ops: Seq<Op>, t: Target, before: Option<Seq<char>>, contents: Seq<char>, i: int)
    requires
        0 <= i < ops.len(),
        ops[i] == Op::Write(t) || (before is None && ops[i] == Op::WriteIfAbsent(t)),
    ensures
        file_after(ops, t, before, contents) == Some(contents),
    decreases ops.len(),
{
    if i < ops.len() - 1 {
        lemma_written(ops.drop_last(), t, before, contents, i);
    } else if before is None {
        lemma_absent_stays_or_written(ops.drop_last(), t, contents);
    }
}

/// Running an installation rewrites the settings and base-deltas documents
/// whatever they held, but leaves a package manifest or npm configuration
/// that already exists as it was; on a first run it writes them.
pub proof fn lemma_rerun_overwrite_policy(
    auto_start: bool,
    regime: ServiceRegime,
    posix: bool,
    before: Option<Seq<char>>,
    contents: Seq<char>,
)
    ensures
        file_after(plan_spec(auto_start, regime, posix), Target::Settings, before, contents) == Some(
            contents,
        ),
        file_after(plan_spec(auto_start, regime, posix), Target::BaseDeltas, before, contents)
            == Some(contents),
        before is Some ==> file_after(
            plan_spec(auto_start, regime, posix),
            Target::PackageManifest,
            before,
            contents,
        ) == before,
        before is Some ==> file_after(
            plan_spec(auto_start, regime, posix),
            Target::NpmConfig,
            before,
            contents,
        ) == before,
        before is None ==> file_after(
            plan_spec(auto_start, regime, posix),
            Target::PackageManifest,
            before,
            contents,
        ) == Some(contents),
        before is None ==> file_after(
            plan_spec(auto_start, regime, posix),
            Target::NpmConfig,
            before,
            contents,
        ) == Some(contents),
{
    let p = plan_spec(auto_start, regime, posix);
    let e = extract_ops(posix);
    let k = e.len() as int;
    assert(p[k + 1] == Op::Write(Target::Settings));
    assert(p[k + 2] == Op::Write(Target::BaseDeltas));
    assert(p[k + 3] == Op::WriteIfAbsent(Target::PackageManifest));
    assert(p[k + 4] == Op::WriteIfAbsent(Target::NpmConfig));
    lemma_written(p, Target::Settings, before, contents, k + 1);
    lemma_written(p, Target::BaseDeltas, before, contents, k + 2);
    if before is Some {
        assert forall|i: int| 0 <= i < p.len() implies p[i] != Op::Write(Target::PackageManifest)
            && p[i] != Op::Write(Target::NpmConfig) by {
            lemma_plan_op_kinds(auto_start, regime, posix, i);
        }
        lemma_kept_without_write(p, Target::PackageManifest, before, contents);
        lemma_kept_without_write(p, Target::NpmConfig, before, contents);
    } else {
        lemma_written(p, Target::PackageManifest, before, contents, k + 3);
        lemma_written(p, Target::NpmConfig, before, contents, k + 4);
    }
}

/// Every operation of a plan is one of a short list.
proof fn lemma_plan_op_kinds(auto_start: bool, regime: ServiceRegime, posix: bool, i: int)
    requires
        0 <= i < plan_spec(auto_start, regime, posix).len(),
    ensures
        ({
            let op = plan_spec(auto_start, regime, posix)[i];
            op is Emit || op == Op::CreateDir(Target::ConfigDir) || op == Op::CreateDir(
                Target::InstallDir,
            ) || op == Op::ResolveResources || op == Op::CopyFileIfPresent(Target::Runtime) || op
                == Op::MakeExecutableIfPresent(Target::Runtime) || op == Op::CopyTreeIfPresent(
                Target::ServerBundle,
            ) || op == Op::Write(Target::Settings) || op == Op::Write(Target::BaseDeltas) || op
                == Op::WriteIfAbsent(Target::PackageManifest) || op == Op::WriteIfAbsent(
                Target::NpmConfig,
            ) || (auto_start && regime != ServiceRegime::Unsupported && op == Op::CreateDir(
                Target::ServiceDir,
            )) || (auto_start && regime != ServiceRegime::Unsupported && op == Op::Write(
                Target::ServiceDescriptor,
            )) || op == Op::RequireExists(Target::Settings)
        }),
{
    let e = extract_ops(posix);
    let c = config_ops();
    let s = service_ops(auto_start, regime);
    let v = verify_ops();
    let reg = if auto_start {
        registration_ops(regime)
    } else {
        seq![]
    };
    let p = plan_spec(auto_start, regime, posix);
    assert(p == e + c + s + v);
    if i < e.len() {
        assert(p[i] == e[i]);
        if posix {
            assert(e.len() == 9);
        } else {
            assert(e.len() == 8);
        }
    } else if i < e.len() + c.len() {
        assert(p[i] == c[i - e.len()]);
    } else if i < e.len() + c.len() + s.len() {
        let j = i - e.len() - c.len();
        assert(p[i] == s[j]);
        assert(s == seq![Op::Emit(Step::Service, Status::InProgress, Some(Note::ConfiguringAutoStart))]
            + reg + seq![Op::Emit(Step::Service, Status::Completed, None)]);
        if 1 <= j < 1 + reg.len() {
            assert(s[j] == reg[j - 1]);
        }
    } else {
        assert(p[i] == v[i - e.len() - c.len() - s.len()]);
    }
}

/// Without auto-start, or where no regime applies, an installation neither
/// creates a service directory nor writes a descriptor, and still reports
/// the service phase as completed.
pub proof fn lemma_no_registration_without_auto_start(
    auto_start: bool,
    regime: ServiceRegime,
    posix: bool,
)
    requires
        !auto_start || regime == ServiceRegime::Unsupported,
    ensures
        forall|i: int|
            0 <= i < plan_spec(auto_start, regime, posix).len() ==> plan_spec(
                auto_start,
                regime,
                posix,
            )[i] != Op::Write(Target::ServiceDescriptor) && plan_spec(auto_start, regime, posix)[i]
                != Op::CreateDir(Target::ServiceDir),
        plan_spec(auto_start, regime, posix).contains(
            Op::Emit(Step::Service, Status::Completed, None),
        ),
{
    let p = plan_spec(auto_start, regime, posix);
    assert forall|i: int| 0 <= i < p.len() implies p[i] != Op::Write(Target::ServiceDescriptor)
        && p[i] != Op::CreateDir(Target::ServiceDir) by {
        lemma_plan_op_kinds(auto_start, regime, posix, i);
    }
    let k = extract_ops(posix).len() + config_ops().len() + service_ops(auto_start, regime).len()
        - 1;
    assert(p[k] == Op::Emit(Step::Service, Status::Completed, None));
}

/// On a POSIX target the copied runtime is made executable right after it
/// is copied, with a mode that lets owner, group and others execute it.
pub proof fn lemma_runtime_made_executable(auto_start: bool, regime: ServiceRegime)
    ensures
        plan_spec(auto_start, regime, true)[5] == Op::CopyFileIfPresent(Target::Runtime),
        plan_spec(auto_start, regime, true)[6] == Op::MakeExecutableIfPresent(Target::Runtime),
        RUNTIME_MODE & 0o111 == 0o111,
{
    assert(0o755u32 & 0o111u32 == 0o111u32) by (bit_vector);
}

/// The bundled runtime and server tree are read only by operations that
/// skip them where they are absent, and all of them come before the
/// extract phase reports completion.
pub proof fn lemma_resources_optional(auto_start: bool, regime: ServiceRegime, posix: bool)
    ensures
        forall|i: int|
            #![trigger plan_spec(auto_start, regime, posix)[i]]
            0 <= i < plan_spec(auto_start, regime, posix).len() ==> (plan_spec(
                auto_start,
                regime,
                posix,
            )[i] is CopyFileIfPresent || plan_spec(auto_start, regime, posix)[i] is CopyTreeIfPresent
                || plan_spec(auto_start, regime, posix)[i] is MakeExecutableIfPresent) ==> i
                < extract_ops(posix).len() - 1,
        plan_spec(auto_start, regime, posix)[extract_ops(posix).len() - 1] == Op::Emit(
            Step::Extract,
            Status::Completed,
            None,
        ),
{
    let p = plan_spec(auto_start, regime, posix);
    let k = extract_ops(posix).len() - 1;
    assert forall|i: int|
        #![trigger p[i]]
        0 <= i < p.len() && (p[i] is CopyFileIfPresent || p[i] is CopyTreeIfPresent
            || p[i] is MakeExecutableIfPresent) implies i < k by {
        lemma_plan_op_kinds(auto_start, regime, posix, i);
        if i >= k {
            if posix {
                assert(p[8] == Op::Emit(Step::Extract, Status::Completed, None));
            } else {
                assert(p[7] == Op::Emit(Step::Extract, Status::Completed, None));
            }
            if i >= extract_ops(posix).len() {
                lemma_after_extract(auto_start, regime, posix, i);
            }
        }
    }
    if posix {
        assert(p[8] == Op::Emit(Step::Extract, Status::Completed, None));
    } else {
        assert(p[7] == Op::Emit(Step::Extract, Status::Completed, None));
    }
}

proof fn lemma_after_extract(auto_start: bool, regime: ServiceRegime, posix: bool, i: int)
    requires
        extract_ops(posix).len() <= i < plan_spec(auto_start, regime, posix).len(),
    ensures
        !(plan_spec(auto_start, regime, posix)[i] is CopyFileIfPresent),
        !(plan_spec(auto_start, regime, posix)[i] is CopyTreeIfPresent),
        !(plan_spec(auto_start, regime, posix)[i] is MakeExecutableIfPresent),
{
    let e = extract_ops(posix);
    let rest = config_ops() + service_ops(auto_start, regime) + verify_ops();
    let p = plan_spec(auto_start, regime, posix);
    assert(p =~= e + rest);
    assert(p[i] == rest[i - e.len()]);
    let reg = if auto_start {
        registration_ops(regime)
    } else {
        seq![]
    };
    let j = i - e.len();
    let c = config_ops();
    let s = service_ops(auto_start, regime);
    if j < c.len() {
        assert(rest[j] == c[j]);
    } else if j < c.len() + s.len() {
        assert(rest[j] == s[j - c.len()]);
        if 1 <= j - c.len() < 1 + reg.len() {
            assert(s[j - c.len()] == reg[j - c.len() - 1]);
        }
    } else {
        assert(rest[j] == verify_ops()[j - c.len() - s.len()]);
    }
}

pub open spec fn step_rank(s: Step) -> int {
    match s {
        Step::Extract => 0,
        Step::Config => 1,
        Step::Service => 2,
        Step::Verify => 3,
    }
}

/// Where the phase of rank `k` starts in the plan; the rank-4 entry is its length.
pub open spec fn phase_start(auto_start: bool, regime: ServiceRegime, posix: bool, k: int) -> int {
    let e = extract_ops(posix).len() as int;
    let c = config_ops().len() as int;
    let s = service_ops(auto_start, regime).len() as int;
    if k <= 0 {
        0
    } else if k == 1 {
        e
    } else if k == 2 {
        e + c
    } else if k == 3 {
        e + c + s
    } else {
        e + c + s + verify_ops().len()
    }
}

proof fn lemma_phase_bounds(auto_start: bool, regime: ServiceRegime, posix: bool)
    ensures
        ({
            let p = plan_spec(auto_start, regime, posix);
            &&& phase_start(auto_start, regime, posix, 0) == 0
            &&& phase_start(auto_start, regime, posix, 4) == p.len()
            &&& forall|k: int|
                #![trigger phase_start(auto_start, regime, posix, k)]
                0 <= k < 4 ==> phase_start(auto_start, regime, posix, k) + 2 <= phase_start(
                    auto_start,
                    regime,
                    posix,
                    k + 1,
                )
            &&& forall|k: int|
                #![trigger step_of_rank(k)]
                0 <= k < 4 ==> p[phase_start(auto_start, regime, posix, k + 1) - 1] == Op::Emit(
                    step_of_rank(k),
                    Status::Completed,
                    None,
                )
        }),
{
    let e = extract_ops(posix);
    let c = config_ops();
    let s = service_ops(auto_start, regime);
    let v = verify_ops();
    let p = plan_spec(auto_start, regime, posix);
    assert(p == e + c + s + v);
    assert(s.len() >= 2);
    if posix {
        assert(e.len() == 9);
    } else {
        assert(e.len() == 8);
    }
    assert(p[e.len() - 1] == e[e.len() - 1]);
    assert(p[e.len() + c.len() - 1] == c[c.len() - 1]);
    assert(s[s.len() - 1] == Op::Emit(Step::Service, Status::Completed, None));
    assert(p[e.len() + c.len() + s.len() - 1] == s[s.len() - 1]);
    assert(p[p.len() - 1] == v[v.len() - 1]);
}

proof fn lemma_emit_at(auto_start: bool, regime: ServiceRegime, posix: bool, i: int)
    requires
        0 <= i < plan_spec(auto_start, regime, posix).len(),
    ensures
        ({
            let p = plan_spec(auto_start, regime, posix);
            p[i] is Emit ==> {
                let k = step_rank(p[i]->Emit_0);
                &&& p[i]->Emit_1 != Status::Failed
                &&& phase_start(auto_start, regime, posix, k) <= i < phase_start(
                    auto_start,
                    regime,
                    posix,
                    k + 1,
                )
                &&& (p[i]->Emit_1 == Status::Completed <==> i == phase_start(
                    auto_start,
                    regime,
                    posix,
                    k + 1,
                ) - 1)
                &&& (p[i]->Emit_1 == Status::InProgress ==> i < phase_start(
                    auto_start,
                    regime,
                    posix,
                    k + 1,
                ) - 1)
            }
        }),
        !(plan_spec(auto_start, regime, posix)[i] is Emit) ==> exists|k: int|
            #![trigger phase_start(auto_start, regime, posix, k)]
            0 <= k < 4 && phase_start(auto_start, regime, posix, k) < i < phase_start(
                auto_start,
                regime,
                posix,
                k + 1,
            ) - 1,
{
    let e = extract_ops(posix);
    let c = config_ops();
    let s = service_ops(auto_start, regime);
    let v = verify_ops();
    let reg = if auto_start {
        registration_ops(regime)
    } else {
        seq![]
    };
    let p = plan_spec(auto_start, regime, posix);
    assert(p == e + c + s + v);
    assert(s == seq![Op::Emit(Step::Service, Status::InProgress, Some(Note::ConfiguringAutoStart))]
        + reg + seq![Op::Emit(Step::Service, Status::Completed, None)]);
    if posix {
        assert(e.len() == 9);
    } else {
        assert(e.len() == 8);
    }
    if i < e.len() {
        assert(p[i] == e[i]);
        if !(p[i] is Emit) {
            assert(phase_start(auto_start, regime, posix, 0) < i);
        }
    } else if i < e.len() + c.len() {
        assert(p[i] == c[i - e.len()]);
        if !(p[i] is Emit) {
            assert(phase_start(auto_start, regime, posix, 1) < i);
        }
    } else if i < e.len() + c.len() + s.len() {
        let j = i - e.len() - c.len();
        assert(p[i] == s[j]);
        if 1 <= j < 1 + reg.len() {
            assert(s[j] == reg[j - 1]);
        }
        if !(p[i] is Emit) {
            assert(phase_start(auto_start, regime, posix, 2) < i);
        }
    } else {
        assert(p[i] == v[i - e.len() - c.len() - s.len()]);
        if !(p[i] is Emit) {
            assert(phase_start(auto_start, regime, posix, 3) < i);
        }
    }
}

pub open spec fn step_of_rank(k: int) -> Step {
    if k <= 0 {
        Step::Extract
    } else if k == 1 {
        Step::Config
    } else if k == 2 {
        Step::Service
    } else {
        Step::Verify
    }
}

/// The progress events of an installation come phase by phase in the fixed
/// order: each phase opens with an `InProgress` event and closes with exactly
/// one `Completed` event, and no `Failed` event is ever broadcast (a failure
/// shows as the missing `Completed` together with the run's error).
pub proof fn lemma_progress_order(auto_start: bool, regime: ServiceRegime, posix: bool)
    ensures
        forall|i: int|
            #![trigger plan_spec(auto_start, regime, posix)[i]]
            0 <= i < plan_spec(auto_start, regime, posix).len() && plan_spec(
                auto_start,
                regime,
                posix,
            )[i] is Emit ==> plan_spec(auto_start, regime, posix)[i]->Emit_1 != Status::Failed,
        forall|i: int, j: int|
            #![trigger plan_spec(auto_start, regime, posix)[i], plan_spec(auto_start, regime, posix)[j]]
            0 <= i < j < plan_spec(auto_start, regime, posix).len() && plan_spec(
                auto_start,
                regime,
                posix,
            )[i] is Emit && plan_spec(auto_start, regime, posix)[j] is Emit ==> step_rank(
                plan_spec(auto_start, regime, posix)[i]->Emit_0,
            ) <= step_rank(plan_spec(auto_start, regime, posix)[j]->Emit_0),
        forall|i: int, j: int|
            #![trigger plan_spec(auto_start, regime, posix)[i], plan_spec(auto_start, regime, posix)[j]]
            0 <= i < plan_spec(auto_start, regime, posix).len() && 0 <= j < plan_spec(
                auto_start,
                regime,
                posix,
            ).len() && plan_spec(auto_start, regime, posix)[i] is Emit && plan_spec(
                auto_start,
                regime,
                posix,
            )[j] is Emit && plan_spec(auto_start, regime, posix)[i]->Emit_0 == plan_spec(
                auto_start,
                regime,
                posix,
            )[j]->Emit_0 && plan_spec(auto_start, regime, posix)[i]->Emit_1 == Status::InProgress
                && plan_spec(auto_start, regime, posix)[j]->Emit_1 == Status::Completed ==> i < j,
        forall|i: int, j: int|
            #![trigger plan_spec(auto_start, regime, posix)[i], plan_spec(auto_start, regime, posix)[j]]
            0 <= i < plan_spec(auto_start, regime, posix).len() && 0 <= j < plan_spec(
                auto_start,
                regime,
                posix,
            ).len() && plan_spec(auto_start, regime, posix)[i] is Emit && plan_spec(
                auto_start,
                regime,
                posix,
            )[j] is Emit && plan_spec(auto_start, regime, posix)[i]->Emit_0 == plan_spec(
                auto_start,
                regime,
                posix,
            )[j]->Emit_0 && plan_spec(auto_start, regime, posix)[i]->Emit_1 == Status::Completed
                && plan_spec(auto_start, regime, posix)[j]->Emit_1 == Status::Completed ==> i == j,
        forall|s: Step|
            plan_spec(auto_start, regime, posix).contains(
                Op::Emit(s, Status::Completed, None),
            ),
{
    let p = plan_spec(auto_start, regime, posix);
    assert forall|i: int| 0 <= i < p.len() && p[i] is Emit implies p[i]->Emit_1
        != Status::Failed by {
        lemma_emit_at(auto_start, regime, posix, i);
    }
    assert forall|i: int, j: int|
        0 <= i < j < p.len() && p[i] is Emit && p[j] is Emit implies step_rank(p[i]->Emit_0)
        <= step_rank(p[j]->Emit_0) by {
        lemma_emit_at(auto_start, regime, posix, i);
        lemma_emit_at(auto_start, regime, posix, j);
    }
    assert forall|i: int, j: int|
        0 <= i < p.len() && 0 <= j < p.len() && p[i] is Emit && p[j] is Emit && p[i]->Emit_0
            == p[j]->Emit_0 && p[i]->Emit_1 == Status::InProgress && p[j]->Emit_1
            == Status::Completed implies i < j by {
        lemma_emit_at(auto_start, regime, posix, i);
        lemma_emit_at(auto_start, regime, posix, j);
    }
    assert forall|i: int, j: int|
        0 <= i < p.len() && 0 <= j < p.len() && p[i] is Emit && p[j] is Emit && p[i]->Emit_0
            == p[j]->Emit_0 && p[i]->Emit_1 == Status::Completed && p[j]->Emit_1
            == Status::Completed implies i == j by {
        lemma_emit_at(auto_start, regime, posix, i);
        lemma_emit_at(auto_start, regime, posix, j);
    }
    lemma_phase_bounds(auto_start, regime, posix);
    assert forall|s: Step| p.contains(Op::Emit(s, Status::Completed, None)) by {
        let k = step_rank(s);
        assert(step_of_rank(k) == s);
        assert(p[phase_start(auto_start, regime, posix, k + 1) - 1] == Op::Emit(
            s,
            Status::Completed,
            None,
        ));
    }
}

/// Every operation that can fail lies inside a phase, after its
/// `InProgress` event and before its `Completed` event; since `advance` ends
/// a run at its first failure, a failed phase never reports completion.
pub proof fn lemma_failure_precedes_completion(auto_start: bool, regime: ServiceRegime, posix: bool)
    ensures
        forall|i: int|
            #![trigger plan_spec(auto_start, regime, posix)[i]]
            0 <= i < plan_spec(auto_start, regime, posix).len() && !(plan_spec(
                auto_start,
                regime,
                posix,
            )[i] is Emit) ==> exists|k: int|
                #![trigger step_of_rank(k)]
                0 <= k < 4 && i < phase_start(auto_start, regime, posix, k + 1) - 1 && plan_spec(
                    auto_start,
                    regime,
                    posix,
                )[phase_start(auto_start, regime, posix, k + 1) - 1] == Op::Emit(
                    step_of_rank(k),
                    Status::Completed,
                    None,
                ) && phase_start(auto_start, regime, posix, k) < i,
{
    let p = plan_spec(auto_start, regime, posix);
    lemma_phase_bounds(auto_start, regime, posix);
    assert forall|i: int| #![trigger p[i]] 0 <= i < p.len() && !(p[i] is Emit) implies exists|k: int|
        #![trigger step_of_rank(k)]
        0 <= k < 4 && i < phase_start(auto_start, regime, posix, k + 1) - 1 && p[phase_start(
            auto_start,
            regime,
            posix,
            k + 1,
        ) - 1] == Op::Emit(step_of_rank(k), Status::Completed, None) && phase_start(
            auto_start,
            regime,
            posix,
            k,
        ) < i by {
        lemma_emit_at(auto_start, regime, posix, i);
        let k = choose|k: int|
            #![trigger phase_start(auto_start, regime, posix, k)]
            0 <= k < 4 && phase_start(auto_start, regime, posix, k) < i < phase_start(
                auto_start,
                regime,
                posix,
                k + 1,
            ) - 1;
        assert(p[phase_start(auto_start, regime, posix, k + 1) - 1] == Op::Emit(
            step_of_rank(k),
            Status::Completed,
            None,
        ));
    }
}

} // verus!
