use vstd::prelude::*;

verus! {

/// What the user chose for this install.
pub struct InstallerConfig {
    pub vessel_name: String,
    /// Maritime mobile service identity; empty asks for a generated identifier.
    pub mmsi: String,
    pub http_port: u16,
    pub enable_ssl: bool,
    pub ssl_port: u16,
    pub admin_user: String,
    pub admin_password: String,
    pub enable_auto_start: bool,
    pub serial_ports: Vec<String>,
}

/// Prefix of an identifier built from a maritime mobile service identity.
pub const MMSI_URN: &'static str = "urn:mrn:imo:mmsi:";

/// Prefix of an identifier built from a generated unique identifier.
pub const UUID_URN: &'static str = "urn:mrn:signalk:uuid:";

/// Decimal digits, indexed by value.
pub const DIGITS: &'static str = "0123456789";

/// Settings document up to the HTTP port.
pub const SETTINGS_HEAD: &'static str = "{\n  \"enableLogging\": true,\n  \"interfaces\": {\n    \"admin-ui\": true,\n    \"appstore\": true,\n    \"nmea-tcp\": true,\n    \"plugins\": true,\n    \"providers\": true,\n    \"rest\": true,\n    \"tcp\": true,\n    \"webapps\": true,\n    \"ws\": true\n  },\n  \"pipedProviders\": [],\n  \"port\": ";

/// Settings document between the HTTP port and the TLS flag.
pub const SETTINGS_MID: &'static str = ",\n  \"security\": {\n    \"strategy\": \"./tokensecurity\"\n  },\n  \"ssl\": ";

/// Settings document between the TLS flag and the TLS port.
pub const SETTINGS_SSL_PORT: &'static str = ",\n  \"sslport\": ";

/// Closing of the settings document.
pub const SETTINGS_TAIL: &'static str = "\n}";

/// Base-deltas document up to the vessel name.
pub const DELTAS_HEAD: &'static str = "[\n  {\n    \"context\": \"vessels.self\",\n    \"updates\": [\n      {\n        \"values\": [\n          {\n            \"path\": \"\",\n            \"value\": {\n              \"name\": ";

/// Base-deltas document between the vessel name and its identifier.
pub const DELTAS_MID: &'static str = ",\n              \"uuid\": ";

/// Closing of the base-deltas document.
pub const DELTAS_TAIL: &'static str = "\n            }\n          }\n        ]\n      }\n    ]\n  }\n]";

/// The package manifest written for plugins on a first install.
pub const PACKAGE_MANIFEST: &'static str = "{\n  \"dependencies\": {},\n  \"description\": \"SignalK Server Configuration\",\n  \"name\": \"signalk-config\",\n  \"version\": \"0.0.1\"\n}";

/// The npm configuration written on a first install: no lockfiles.
pub const NPM_CONFIG: &'static str = "package-lock=false\n";

pub open spec fn digit(d: nat) -> Seq<char> {
    DIGITS@.subrange(d as int, d as int + 1)
}

/// Decimal notation of `n`, without leading zeros.
pub open spec fn decimal(n: nat) -> Seq<char>
    decreases n,
{
    if n < 10 {
        digit(n)
    } else {
        decimal(n / 10) + digit(n % 10)
    }
}

pub open spec fn bool_text(b: bool) -> Seq<char> {
    if b {
        "true"@
    } else {
        "false"@
    }
}

/// The JSON string literal that stands for `s`.
pub uninterp spec fn json_quoted(s: Seq<char>) -> Seq<char>;

/// Relies on serde_json::to_string on a string slice, which writes the JSON
/// string literal for it and cannot fail on that input.
#[verifier::external_body]
fn quote_json(s: &str) -> (r: String)
    ensures
        r@ == json_quoted(s@),
{
    serde_json::to_string(s).unwrap_or_default()
}

/// Relies on uuid::Uuid::new_v4 and the hyphenated form that its Display
/// writes: 36 characters.
#[verifier::external_body]
fn random_uuid() -> (r: String)
    ensures
        r@.len() == 36,
{
    uuid::Uuid::new_v4().to_string()
}

pub open spec fn vessel_identifier_text(mmsi: Seq<char>, uuid: Seq<char>) -> Seq<char> {
    if mmsi.len() == 0 {
        UUID_URN@ + uuid
    } else {
        MMSI_URN@ + mmsi
    }
}

/// The vessel identifier for `mmsi`, with `uuid` standing in where `mmsi` is empty.
pub fn vessel_identifier(mmsi: &str, uuid: &str) -> (r: String)
    ensures
        r@ == vessel_identifier_text(mmsi@, uuid@),
{
    if mmsi.is_empty() {
        let mut r = String::from_str(UUID_URN);
        r.append(uuid);
        r
    } else {
        let mut r = String::from_str(MMSI_URN);
        r.append(mmsi);
        r
    }
}

/// The vessel identifier for `mmsi`, generating a fresh unique identifier
/// where `mmsi` is empty.
pub fn derive_vessel_identifier(mmsi: &str) -> (r: String)
    ensures
        mmsi@.len() != 0 ==> r@ == MMSI_URN@ + mmsi@,
        mmsi@.len() == 0 ==> exists|u: Seq<char>| u.len() == 36 && r@ == UUID_URN@ + u,
{
    if mmsi.is_empty() {
        let u = random_uuid();
        let r = vessel_identifier(mmsi, u.as_str());
        assert(r@ == UUID_URN@ + u@);
        r
    } else {
        vessel_identifier(mmsi, "")
    }
}

/// Appends the decimal notation of `n` to `s`.
pub fn append_decimal(s: &mut String, n: u16)
    ensures
        final(s)@ == old(s)@ + decimal(n as nat),
    decreases n,
{
    proof {
        reveal_strlit("0123456789");
    }
    let ghost start = s@;
    if n >= 10 {
        append_decimal(s, n / 10);
    }
    let d: usize = (n % 10) as usize;
    let ghost mid = s@;
    s.append(DIGITS.substring_char(d, d + 1));
    assert(s@ =~= start + decimal(n as nat));
}

fn bool_literal(b: bool) -> (r: &'static str)
    ensures
        r@ == bool_text(b),
{
    if b {
        "true"
    } else {
        "false"
    }
}

pub open spec fn settings_text(http_port: u16, enable_ssl: bool, ssl_port: u16) -> Seq<char> {
    SETTINGS_HEAD@ + decimal(http_port as nat) + SETTINGS_MID@ + bool_text(enable_ssl)
        + SETTINGS_SSL_PORT@ + decimal(ssl_port as nat) + SETTINGS_TAIL@
}

/// The server settings document: every interface on, the given ports and
/// TLS flag, token security, no providers, logging on.
pub fn settings_document(config: &InstallerConfig) -> (r: String)
    ensures
        r@ == settings_text(config.http_port, config.enable_ssl, config.ssl_port),
{
    let mut t = String::from_str(SETTINGS_HEAD);
    append_decimal(&mut t, config.http_port);
    t.append(SETTINGS_MID);
    t.append(bool_literal(config.enable_ssl));
    t.append(SETTINGS_SSL_PORT);
    append_decimal(&mut t, config.ssl_port);
    t.append(SETTINGS_TAIL);
    t
}

pub open spec fn base_deltas_text(name: Seq<char>, identifier: Seq<char>) -> Seq<char> {
    DELTAS_HEAD@ + json_quoted(name) + DELTAS_MID@ + json_quoted(identifier) + DELTAS_TAIL@
}

/// The base-deltas document: one update of `vessels.self` that sets the
/// vessel's name and identifier.
pub fn base_deltas_document(vessel_name: &str, identifier: &str) -> (r: String)
    ensures
        r@ == base_deltas_text(vessel_name@, identifier@),
{
    let mut t = String::from_str(DELTAS_HEAD);
    let n = quote_json(vessel_name);
    t.append(n.as_str());
    t.append(DELTAS_MID);
    let i = quote_json(identifier);
    t.append(i.as_str());
    t.append(DELTAS_TAIL);
    t
}

} // verus!
