//! Staging copies of sites: when one may be made, its domain, the
//! configuration it gets, and the messages of a sync.

use vstd::prelude::*;

use crate::agent_body::{AgentBody, Scalar};
use crate::domain::{is_domain, is_valid_domain};
use crate::sites::{php_socket, php_socket_of};
use crate::text::{chars_of, concat2};

verus! {

/// A request for a staging copy, with its own domain when given.
pub struct CreateStagingRequest {
    pub domain: Option<String>,
}

/// Why a staging copy cannot be made.
#[derive(Debug, Clone, Copy, PartialEq, Eq, Structural)]
pub enum StagingError {
    ParentNotActive,
    ParentIsStaging,
    AlreadyExists,
    InvalidDomain,
}

impl StagingError {
    pub fn status(&self) -> (s: u16)
        ensures
            s == match self {
                StagingError::AlreadyExists => 409u16,
                _ => 400u16,
            },
    {
        match self {
            StagingError::AlreadyExists => 409,
            _ => 400,
        }
    }

    pub fn message(&self) -> (m: &'static str)
        ensures
            m@ == match self {
                StagingError::ParentNotActive => "Parent site must be active"@,
                StagingError::ParentIsStaging => "Cannot create staging from a staging site"@,
                StagingError::AlreadyExists => "A staging environment already exists for this site"@,
                StagingError::InvalidDomain => "Invalid staging domain format"@,
            },
    {
        match self {
            StagingError::ParentNotActive => "Parent site must be active",
            StagingError::ParentIsStaging => "Cannot create staging from a staging site",
            StagingError::AlreadyExists => "A staging environment already exists for this site",
            StagingError::InvalidDomain => "Invalid staging domain format",
        }
    }
}

/// The checks on a staging copy, in order: the site is active, is no
/// staging copy itself and has none yet; a given domain is valid. The
/// domain defaults to `staging.` and the site's domain.
pub open spec fn staging_check(
    parent_status: Seq<char>,
    parent_is_staging: bool,
    has_staging: bool,
    parent_domain: Seq<char>,
    requested: Option<Seq<char>>,
) -> Result<Seq<char>, StagingError> {
    if parent_status != "active"@ {
        Err(StagingError::ParentNotActive)
    } else if parent_is_staging {
        Err(StagingError::ParentIsStaging)
    } else if has_staging {
        Err(StagingError::AlreadyExists)
    } else {
        match requested {
            Some(d) if d.len() > 0 => if is_domain(d) { Ok(d) } else { Err(StagingError::InvalidDomain) },
            _ => Ok("staging."@ + parent_domain),
        }
    }
}

pub fn plan_staging(
    parent_status: &str,
    parent_is_staging: bool,
    has_staging: bool,
    parent_domain: &str,
    req: &CreateStagingRequest,
) -> (r: Result<String, StagingError>)
    ensures
        match r {
            Ok(d) => staging_check(parent_status@, parent_is_staging, has_staging, parent_domain@, req.domain.deep_view())
                == Ok::<Seq<char>, StagingError>(d@),
            Err(e) => staging_check(parent_status@, parent_is_staging, has_staging, parent_domain@, req.domain.deep_view())
                == Err::<Seq<char>, StagingError>(e),
        },
{
    if !crate::text::str_eq(parent_status, "active") {
        return Err(StagingError::ParentNotActive);
    }
    if parent_is_staging {
        return Err(StagingError::ParentIsStaging);
    }
    if has_staging {
        return Err(StagingError::AlreadyExists);
    }
    if let Some(d) = &req.domain {
        if chars_of(d.as_str()).len() > 0 {
            if !is_valid_domain(d.as_str()) {
                return Err(StagingError::InvalidDomain);
            }
            return Ok(String::from_str(d.as_str()));
        }
    }
    Ok(concat2("staging.", parent_domain))
}

/// The configuration a staging copy gets: the site's runtime, its proxy
/// port and its PHP socket when it has them.
pub open spec fn staging_body_of(runtime: Seq<char>, proxy_port: Option<i32>, php_version: Option<Seq<char>>) -> Seq<(Seq<char>, Scalar)> {
    let b0 = seq![("runtime"@, Scalar::Str(runtime))];
    let b1 = match proxy_port { Some(p) => b0.push(("proxy_port"@, Scalar::Int(p as i64))), None => b0 };
    match php_version { Some(v) => b1.push(("php_socket"@, Scalar::Str(php_socket_of(v)))), None => b1 }
}

pub fn staging_body(runtime: &str, proxy_port: Option<i32>, php_version: &Option<String>) -> (b: AgentBody)
    ensures
        b@ == staging_body_of(runtime@, proxy_port, php_version.deep_view()),
{
    let mut b = AgentBody::new();
    b.set_str("runtime", runtime);
    if let Some(p) = proxy_port {
        b.set_int("proxy_port", p as i64);
    }
    if let Some(v) = php_version {
        let s = php_socket(v.as_str());
        b.set_str("php_socket", s.as_str());
    }
    b
}

/// The reply to a sync from one site to the other.
pub fn sync_message(verb: &str, from: &str, to: &str) -> (s: String)
    ensures
        s@ == verb@ + " "@ + from@ + " → "@ + to@,
{
    let mut s = String::from_str(verb);
    s.append(" ");
    s.append(from);
    s.append(" → ");
    s.append(to);
    s
}

} // verus!
