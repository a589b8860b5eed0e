//! PHP versions on a server: which can be installed, when an install or
//! removal is refused, and the progress an install reports.

use vstd::prelude::*;

use crate::site_settings::ProvisionStep;
use crate::text::{concat2, concat3, decimal_of, i64_decimal, signed_decimal_of, str_eq, trim_str, trimmed, u64_decimal};

verus! {

/// A request to install a PHP version.
pub struct InstallRequest {
    pub version: String,
    pub method: String,
    pub extensions: Vec<String>,
}

/// A PHP extension to install.
pub struct ExtensionRequest {
    pub name: String,
}

/// The install method when none is given.
pub fn default_method() -> (s: String)
    ensures
        s@ == "native"@,
{
    String::from_str("native")
}

/// The PHP versions the panel installs.
pub open spec fn is_supported_version(v: Seq<char>) -> bool {
    v == "5.6"@ || v == "7.4"@ || v == "8.0"@ || v == "8.1"@ || v == "8.2"@ || v == "8.3"@ || v == "8.4"@
}

/// Why a PHP request is refused.
#[derive(Debug, Clone, Copy, PartialEq, Eq, Structural)]
pub enum PhpError {
    Unsupported,
    AlreadyInstalled,
    /// The version is used by this many sites.
    InUse(i64),
}

impl PhpError {
    /// The HTTP status the refusal is answered with.
    pub fn status(&self) -> (s: u16)
        ensures
            s == match self {
                PhpError::Unsupported => 400u16,
                PhpError::AlreadyInstalled => 409u16,
                PhpError::InUse(_) => 409u16,
            },
    {
        match self {
            PhpError::Unsupported => 400,
            PhpError::AlreadyInstalled => 409,
            PhpError::InUse(_) => 409,
        }
    }

    /// The reply text for the version asked for.
    pub fn message(&self, version: &str) -> (m: String)
        ensures
            m@ == match self {
                PhpError::Unsupported => "Unsupported PHP version"@,
                PhpError::AlreadyInstalled => "PHP "@ + version@ + " is already installed on this server"@,
                PhpError::InUse(n) => "PHP "@ + version@ + " is in use by "@ + signed_decimal_of(*n as int)
                    + " site(s). Migrate those sites first."@,
            },
    {
        match self {
            PhpError::Unsupported => String::from_str("Unsupported PHP version"),
            PhpError::AlreadyInstalled => already_installed_message(version),
            PhpError::InUse(n) => {
                let c = i64_decimal(*n);
                let mut m = concat3("PHP ", version, " is in use by ");
                m.append(c.as_str());
                m.append(" site(s). Migrate those sites first.");
                m
            },
        }
    }
}

/// A supported version, or the refusal.
pub fn validate_version(v: &str) -> (r: Result<(), PhpError>)
    ensures
        r is Ok <==> is_supported_version(v@),
        r is Err ==> r == Err::<(), PhpError>(PhpError::Unsupported),
{
    if str_eq(v, "5.6") || str_eq(v, "7.4") || str_eq(v, "8.0") || str_eq(v, "8.1") || str_eq(v, "8.2")
        || str_eq(v, "8.3") || str_eq(v, "8.4") {
        Ok(())
    } else {
        Err(PhpError::Unsupported)
    }
}

/// How an install is recorded: a failed earlier install is reset, a new
/// version gets a new row.
#[derive(Debug, Clone, Copy, PartialEq, Eq, Structural)]
pub enum InstallRecord {
    Reset,
    Insert,
}

/// An install of a version (trimmed): refused when unsupported or when
/// the version is already there in any state but `error`.
pub fn plan_install(req: &InstallRequest, existing_status: &Option<String>) -> (r: Result<(String, InstallRecord), PhpError>)
    ensures
        !is_supported_version(trimmed(req.version@)) ==> r == Err::<(String, InstallRecord), PhpError>(PhpError::Unsupported),
        is_supported_version(trimmed(req.version@)) ==> match existing_status {
            Some(s) => if s@ == "error"@ {
                r matches Ok((v, k)) && v@ == trimmed(req.version@) && k == InstallRecord::Reset
            } else {
                r == Err::<(String, InstallRecord), PhpError>(PhpError::AlreadyInstalled)
            },
            None => r matches Ok((v, k)) && v@ == trimmed(req.version@) && k == InstallRecord::Insert,
        },
{
    let version = trim_str(req.version.as_str());
    if validate_version(version.as_str()).is_err() {
        return Err(PhpError::Unsupported);
    }
    match existing_status {
        Some(s) => {
            if str_eq(s.as_str(), "error") {
                Ok((version, InstallRecord::Reset))
            } else {
                Err(PhpError::AlreadyInstalled)
            }
        },
        None => Ok((version, InstallRecord::Insert)),
    }
}

/// The reply when a version is already installed.
pub fn already_installed_message(version: &str) -> (s: String)
    ensures
        s@ == "PHP "@ + version@ + " is already installed on this server"@,
{
    concat3("PHP ", version, " is already installed on this server")
}

/// Where an install's progress is followed.
pub fn progress_url(install_id: &str) -> (s: String)
    ensures
        s@ == "/api/php/install-progress/"@ + install_id@,
{
    concat2("/api/php/install-progress/", install_id)
}

/// The step shown while a version installs.
pub fn install_started(version: &str) -> (p: ProvisionStep)
    ensures
        p.step@ == "install"@,
        p.label@ == "Installing PHP "@ + version@,
        p.status@ == "in_progress"@,
        p.message is None,
{
    let label = concat2("Installing PHP ", version);
    ProvisionStep::new("install", label.as_str(), "in_progress", None)
}

/// The steps shown when an install ends: the install step done and the
/// version active, or both failed with the agent's error.
pub fn install_finished(version: &str, outcome: Result<(), String>) -> (v: Vec<ProvisionStep>)
    ensures
        v@.len() == 2,
        v@[0].step@ == "install"@,
        v@[0].label@ == "Installing PHP "@ + version@,
        v@[1].step@ == "complete"@,
        match outcome {
            Ok(_) => v@[0].status@ == "done"@ && v@[0].message is None
                && v@[1].label@ == "PHP version active"@ && v@[1].status@ == "done"@ && v@[1].message is None,
            Err(e) => v@[0].status@ == "error"@ && v@[0].message.deep_view() == Some(e@)
                && v@[1].label@ == "Installation failed"@ && v@[1].status@ == "error"@
                && v@[1].message.deep_view() == Some(e@),
        },
{
    let label = concat2("Installing PHP ", version);
    let mut v: Vec<ProvisionStep> = Vec::new();
    match outcome {
        Ok(_) => {
            v.push(ProvisionStep::new("install", label.as_str(), "done", None));
            v.push(ProvisionStep::new("complete", "PHP version active", "done", None));
        },
        Err(e) => {
            let e2 = String::from_str(e.as_str());
            v.push(ProvisionStep::new("install", label.as_str(), "error", Some(e)));
            v.push(ProvisionStep::new("complete", "Installation failed", "error", Some(e2)));
        },
    }
    v
}

/// A version used by sites cannot be removed (409, with how many).
pub fn check_removal(site_count: i64) -> (r: Result<(), PhpError>)
    ensures
        site_count <= 0 ==> r is Ok,
        site_count > 0 ==> r == Err::<(), PhpError>(PhpError::InUse(site_count)),
{
    if site_count <= 0 {
        return Ok(());
    }
    Err(PhpError::InUse(site_count))
}

} // verus!
