//! Certificates: when one may be issued, the DNS check before issuing,
//! which ACME profile and DNS zone are used, and what the agent is sent.

use vstd::prelude::*;

use crate::agent_body::{opt_str, AgentBody, Scalar};
use crate::crypto::{datetime_parsed, parse_datetime_utc, url_encode, url_encoded};
use crate::text::{chars_of, concat2, concat3, has_suffix, join_with, str_eq};

verus! {

/// The ACME profile asked for when issuing.
pub struct ProvisionQuery {
    pub profile: Option<String>,
}

/// The panel-wide default ACME profile (none or empty resets it).
pub struct DefaultProfileReq {
    pub profile: Option<String>,
}

/// Why a certificate is not issued or changed.
#[derive(Debug, Clone, Copy, PartialEq, Eq, Structural)]
pub enum SslError {
    SiteNotActive,
    /// The same refusal as the DNS-01 issue words it.
    SiteNotActiveForDns01,
    AlreadyEnabled,
    RateLimited,
    NotEnabled,
    NoZone,
    NoZoneId,
    NoZoneToken,
}

impl SslError {
    pub fn status(&self) -> (s: u16)
        ensures
            s == match self {
                SslError::AlreadyEnabled => 409u16,
                SslError::RateLimited => 429u16,
                SslError::NoZone | SslError::NoZoneId | SslError::NoZoneToken => 412u16,
                _ => 400u16,
            },
    {
        match self {
            SslError::AlreadyEnabled => 409,
            SslError::RateLimited => 429,
            SslError::NoZone | SslError::NoZoneId | SslError::NoZoneToken => 412,
            _ => 400,
        }
    }

    pub fn message(&self) -> (m: &'static str)
        ensures
            m@ == match self {
                SslError::SiteNotActive => "Site must be active before provisioning SSL"@,
                SslError::SiteNotActiveForDns01 => "Site must be active"@,
                SslError::AlreadyEnabled => "SSL is already enabled"@,
                SslError::RateLimited => "Rate limit: max 10 SSL certificates per hour. Try again later."@,
                SslError::NotEnabled => "SSL is not enabled for this site"@,
                SslError::NoZone => "No Cloudflare DNS zone found for this domain. Add it in DNS management first."@,
                SslError::NoZoneId => "Zone has no Cloudflare zone ID"@,
                SslError::NoZoneToken => "Zone has no Cloudflare API token"@,
            },
    {
        match self {
            SslError::SiteNotActive => "Site must be active before provisioning SSL",
            SslError::SiteNotActiveForDns01 => "Site must be active",
            SslError::AlreadyEnabled => "SSL is already enabled",
            SslError::RateLimited => "Rate limit: max 10 SSL certificates per hour. Try again later.",
            SslError::NotEnabled => "SSL is not enabled for this site",
            SslError::NoZone => "No Cloudflare DNS zone found for this domain. Add it in DNS management first.",
            SslError::NoZoneId => "Zone has no Cloudflare zone ID",
            SslError::NoZoneToken => "Zone has no Cloudflare API token",
        }
    }
}

/// A certificate is issued for an active site without one, and at most 10
/// an hour per user (`recent` counts those issued in the last hour).
pub fn check_issue(status: &str, ssl_enabled: bool, recent: i64) -> (r: Result<(), SslError>)
    ensures
        status@ != "active"@ ==> r == Err::<(), SslError>(SslError::SiteNotActive),
        status@ == "active"@ && ssl_enabled ==> r == Err::<(), SslError>(SslError::AlreadyEnabled),
        status@ == "active"@ && !ssl_enabled && recent >= 10 ==> r == Err::<(), SslError>(SslError::RateLimited),
        status@ == "active"@ && !ssl_enabled && recent < 10 ==> r is Ok,
{
    if !str_eq(status, "active") {
        return Err(SslError::SiteNotActive);
    }
    if ssl_enabled {
        return Err(SslError::AlreadyEnabled);
    }
    if recent >= 10 {
        return Err(SslError::RateLimited);
    }
    Ok(())
}

/// The same checks before a DNS-01 issue, whose refusal of an inactive
/// site reads "Site must be active".
pub fn check_issue_dns01(status: &str, ssl_enabled: bool, recent: i64) -> (r: Result<(), SslError>)
    ensures
        status@ != "active"@ ==> r == Err::<(), SslError>(SslError::SiteNotActiveForDns01),
        status@ == "active"@ && ssl_enabled ==> r == Err::<(), SslError>(SslError::AlreadyEnabled),
        status@ == "active"@ && !ssl_enabled && recent >= 10 ==> r == Err::<(), SslError>(SslError::RateLimited),
        status@ == "active"@ && !ssl_enabled && recent < 10 ==> r is Ok,
{
    match check_issue(status, ssl_enabled, recent) {
        Err(SslError::SiteNotActive) => Err(SslError::SiteNotActiveForDns01),
        other => other,
    }
}

/// Renewing or revoking needs a certificate.
pub fn check_has_certificate(ssl_enabled: bool) -> (r: Result<(), SslError>)
    ensures
        r is Ok <==> ssl_enabled,
        !ssl_enabled ==> r == Err::<(), SslError>(SslError::NotEnabled),
{
    if ssl_enabled { Ok(()) } else { Err(SslError::NotEnabled) }
}

/// The DNS check before issuing over HTTP: skipped when the server's
/// address is unknown; otherwise the domain must resolve, and to that
/// address. The error is the reply.
pub open spec fn preflight_of(domain: Seq<char>, server_ip: Seq<char>, resolved: Option<Seq<Seq<char>>>) -> Result<(), Seq<char>> {
    if server_ip.len() == 0 {
        Ok(())
    } else {
        match resolved {
            None => Err("Domain "@ + domain + " could not be resolved. Ensure DNS is configured before provisioning SSL."@),
            Some(ips) => if ips.contains(server_ip) {
                Ok(())
            } else {
                Err("Domain "@ + domain + " does not resolve to this server ("@ + server_ip + "). DNS points to: "@
                    + join_with(ips, ", "@) + ". Fix DNS before provisioning SSL."@)
            },
        }
    }
}

fn join_comma(ips: &Vec<String>) -> (s: String)
    ensures
        s@ == join_with(ips@.map_values(|x: String| x@), ", "@),
{
    let ghost model = ips@.map_values(|x: String| x@);
    let mut s = String::new();
    proof {
        reveal_strlit("");
    }
    let mut i: usize = 0;
    while i < ips.len()
        invariant
            i <= ips@.len(),
            model == ips@.map_values(|x: String| x@),
            s@ == join_with(model.take(i as int), ", "@),
        decreases ips@.len() - i,
    {
        let ghost before = s@;
        if i > 0 {
            s.append(", ");
        }
        s.append(ips[i].as_str());
        assert(model.take(i + 1).drop_last() =~= model.take(i as int));
        assert(model.take(i + 1).last() == ips@[i as int]@);
        if i == 0 {
            assert(s@ =~= join_with(model.take(i + 1), ", "@));
        } else {
            assert(s@ =~= before + ", "@ + ips@[i as int]@);
        }
        i = i + 1;
    }
    assert(model.take(i as int) =~= model);
    s
}

pub fn dns_preflight(domain: &str, server_ip: &str, resolved: &Option<Vec<String>>) -> (r: Result<(), String>)
    ensures
        match r {
            Ok(_) => preflight_of(domain@, server_ip@, match resolved { Some(v) => Some(v@.map_values(|x: String| x@)), None => None }) is Ok,
            Err(m) => preflight_of(domain@, server_ip@, match resolved { Some(v) => Some(v@.map_values(|x: String| x@)), None => None })
                == Err::<(), Seq<char>>(m@),
        },
{
    if chars_of(server_ip).len() == 0 {
        return Ok(());
    }
    match resolved {
        None => {
            let mut m = concat2("Domain ", domain);
            m.append(" could not be resolved. Ensure DNS is configured before provisioning SSL.");
            Err(m)
        },
        Some(ips) => {
            let ghost model = ips@.map_values(|x: String| x@);
            let mut i: usize = 0;
            while i < ips.len()
                invariant
                    i <= ips@.len(),
                    model == ips@.map_values(|x: String| x@),
                    *resolved == Some(*ips),
                    forall|j: int| 0 <= j < i ==> model[j] != server_ip@,
                decreases ips@.len() - i,
            {
                if str_eq(ips[i].as_str(), server_ip) {
                    assert(model[i as int] == server_ip@);
                    assert(model.contains(server_ip@));
                    return Ok(());
                }
                i = i + 1;
            }
            let joined = join_comma(ips);
            let mut m = concat3("Domain ", domain, " does not resolve to this server (");
            m.append(server_ip);
            m.append("). DNS points to: ");
            m.append(joined.as_str());
            m.append(". Fix DNS before provisioning SSL.");
            Err(m)
        },
    }
}

/// The ACME profile used: the one asked for when non-empty, else the
/// stored default when non-empty, else none (the CA's own default).
pub open spec fn profile_of(requested: Option<Seq<char>>, stored: Option<Seq<char>>) -> Option<Seq<char>> {
    match requested {
        Some(p) if p.len() > 0 => Some(p),
        _ => match stored {
            Some(s) if s.len() > 0 => Some(s),
            _ => None,
        },
    }
}

pub fn resolve_profile(requested: Option<&str>, stored: &Option<String>) -> (r: Option<String>)
    ensures
        r.deep_view() == profile_of(requested.deep_view(), stored.deep_view()),
{
    if let Some(p) = requested {
        if chars_of(p).len() > 0 {
            return Some(String::from_str(p));
        }
    }
    match stored {
        Some(s) => if chars_of(s.as_str()).len() > 0 { Some(String::from_str(s.as_str())) } else { None },
        None => None,
    }
}

/// Whether a new default profile is stored (`Some`) or the default is
/// cleared.
pub fn default_profile_change(req: &DefaultProfileReq) -> (r: Option<String>)
    ensures
        r.deep_view() == match req.profile { Some(p) => if p@.len() > 0 { Some(p@) } else { None }, None => None },
{
    match &req.profile {
        Some(p) => if chars_of(p.as_str()).len() > 0 { Some(String::from_str(p.as_str())) } else { None },
        None => None,
    }
}

/// The agent path that lists the CA's profiles.
pub fn profiles_path(email: &str) -> (p: String)
    ensures
        p@ == "/ssl/profiles?email="@ + url_encoded(email@),
{
    let e = url_encode(email);
    concat2("/ssl/profiles?email=", e.as_str())
}

/// What the agent is sent to issue or renew a certificate over HTTP.
pub open spec fn issue_body_of(
    email: Seq<char>,
    runtime: Seq<char>,
    proxy_port: Option<i32>,
    php_version: Option<Seq<char>>,
    root: Option<Seq<char>>,
    profile: Option<Seq<char>>,
) -> Seq<(Seq<char>, Scalar)> {
    let b0 = seq![("email"@, Scalar::Str(email)), ("runtime"@, Scalar::Str(runtime))];
    let b1 = match proxy_port { Some(p) => b0.push(("proxy_port"@, Scalar::Int(p as i64))), None => b0 };
    let b2 = match php_version { Some(v) => b1.push(("php_socket"@, Scalar::Str("/run/php/php"@ + v + "-fpm.sock"@))), None => b1 };
    let b3 = match root { Some(r) => b2.push(("root"@, Scalar::Str(r))), None => b2 };
    match profile { Some(p) => b3.push(("profile"@, Scalar::Str(p))), None => b3 }
}

pub fn issue_body(
    email: &str,
    runtime: &str,
    proxy_port: Option<i32>,
    php_version: &Option<String>,
    root: &Option<String>,
    profile: &Option<String>,
) -> (b: AgentBody)
    ensures
        b@ == issue_body_of(email@, runtime@, proxy_port, php_version.deep_view(), root.deep_view(), profile.deep_view()),
{
    let mut b = AgentBody::new();
    b.set_str("email", email);
    b.set_str("runtime", runtime);
    if let Some(p) = proxy_port {
        b.set_int("proxy_port", p as i64);
    }
    if let Some(v) = php_version {
        let s = concat3("/run/php/php", v.as_str(), "-fpm.sock");
        b.set_str("php_socket", s.as_str());
    }
    if let Some(r) = root {
        b.set_str("root", r.as_str());
    }
    if let Some(p) = profile {
        b.set_str("profile", p.as_str());
    }
    b
}

/// A Cloudflare DNS zone of the user.
pub struct DnsZone {
    pub domain: String,
    pub cf_zone_id: Option<String>,
    pub cf_api_token: Option<String>,
    pub cf_api_email: Option<String>,
}

/// A zone covers a domain that is the zone itself or lies under it.
pub open spec fn covers(zone: Seq<char>, domain: Seq<char>) -> bool {
    domain == zone || has_suffix(domain, "."@ + zone)
}

/// The zone used for a DNS challenge: of the zones covering the domain,
/// the one with the longest name (the last of those equally long).
pub open spec fn best_zone(zones: Seq<Seq<char>>, domain: Seq<char>) -> Option<int>
    decreases zones.len(),
{
    if zones.len() == 0 {
        None
    } else {
        let p = best_zone(zones.drop_last(), domain);
        let i = zones.len() - 1;
        if !covers(zones[i], domain) {
            p
        } else {
            match p {
                Some(j) => if zones[i].len() >= zones[j].len() { Some(i) } else { Some(j) },
                None => Some(i),
            }
        }
    }
}

proof fn lemma_best_zone_in_range(zones: Seq<Seq<char>>, domain: Seq<char>)
    ensures
        best_zone(zones, domain) matches Some(j) ==> 0 <= j < zones.len(),
    decreases zones.len(),
{
    if zones.len() > 0 {
        lemma_best_zone_in_range(zones.drop_last(), domain);
    }
}

/// The zone, the domain the certificate is issued for (the zone's for a
/// wildcard, the site's else), and the zone's credentials.
pub fn pick_zone(zones: &Vec<DnsZone>, domain: &str, wildcard: bool) -> (r: Result<(usize, String), SslError>)
    ensures
        ({
            let names = zones@.map_values(|z: DnsZone| z.domain@);
            match best_zone(names, domain@) {
                None => r == Err::<(usize, String), SslError>(SslError::NoZone),
                Some(j) => if zones@[j].cf_zone_id is None {
                    r == Err::<(usize, String), SslError>(SslError::NoZoneId)
                } else if zones@[j].cf_api_token is None {
                    r == Err::<(usize, String), SslError>(SslError::NoZoneToken)
                } else {
                    r matches Ok((k, d)) && k == j && d@ == (if wildcard { names[j] } else { domain@ })
                },
            }
        }),
{
    let ghost names = zones@.map_values(|z: DnsZone| z.domain@);
    let dc = chars_of(domain);
    let mut best: Option<usize> = None;
    let mut i: usize = 0;
    while i < zones.len()
        invariant
            i <= zones@.len(),
            dc@ == domain@,
            names == zones@.map_values(|z: DnsZone| z.domain@),
            match best {
                Some(j) => best_zone(names.take(i as int), domain@) == Some(j as int) && j < i,
                None => best_zone(names.take(i as int), domain@) is None,
            },
        decreases zones@.len() - i,
    {
        proof {
            lemma_best_zone_in_range(names.take(i as int), domain@);
        }
        assert(names.take(i + 1).drop_last() =~= names.take(i as int));
        assert(names.take(i + 1)[i as int] == zones@[i as int].domain@);
        let z = zones[i].domain.as_str();
        let suffix = concat2(".", z);
        let cov = str_eq(domain, z) || crate::text::ends_with(dc.as_slice(), suffix.as_str());
        if cov {
            match best {
                Some(j) => {
                    assert(names.take(i + 1)[j as int] == names[j as int]);
                    let li = chars_of(zones[i].domain.as_str()).len();
                    let lj = chars_of(zones[j].domain.as_str()).len();
                    if li >= lj {
                        best = Some(i);
                    }
                },
                None => {
                    best = Some(i);
                },
            }
        }
        i = i + 1;
    }
    assert(names.take(i as int) =~= names);
    match best {
        None => Err(SslError::NoZone),
        Some(j) => {
            if zones[j].cf_zone_id.is_none() {
                return Err(SslError::NoZoneId);
            }
            if zones[j].cf_api_token.is_none() {
                return Err(SslError::NoZoneToken);
            }
            let d = if wildcard { String::from_str(zones[j].domain.as_str()) } else { String::from_str(domain) };
            Ok((j, d))
        },
    }
}

/// What the agent is sent to issue a certificate over a DNS challenge.
pub fn dns01_body(email: &str, zone: &DnsZone, wildcard: bool, profile: &Option<String>) -> (b: AgentBody)
    requires
        zone.cf_zone_id is Some,
        zone.cf_api_token is Some,
    ensures
        b@ == ({
            let b0 = seq![
                ("email"@, Scalar::Str(email@)),
                ("cf_zone_id"@, Scalar::Str(zone.cf_zone_id.unwrap()@)),
                ("cf_api_token"@, Scalar::Str(zone.cf_api_token.unwrap()@)),
                ("cf_api_email"@, opt_str(zone.cf_api_email.deep_view())),
                ("wildcard"@, Scalar::Bool(wildcard)),
            ];
            match profile { Some(p) => b0.push(("profile"@, Scalar::Str(p@))), None => b0 }
        }),
{
    let mut b = AgentBody::new();
    b.set_str("email", email);
    match &zone.cf_zone_id {
        Some(z) => b.set_str("cf_zone_id", z.as_str()),
        None => {},
    }
    match &zone.cf_api_token {
        Some(t) => b.set_str("cf_api_token", t.as_str()),
        None => {},
    }
    b.set_opt_str("cf_api_email", &zone.cf_api_email);
    b.set_bool("wildcard", wildcard);
    if let Some(p) = profile {
        b.set_str("profile", p.as_str());
    }
    b
}

/// The format the agent gives a certificate's expiry in.
pub open spec fn ssl_expiry_format() -> Seq<char> {
    "%Y-%m-%d %H:%M:%S%.f UTC"@
}

/// The certificate's expiry from the agent's reply, as Unix seconds and
/// nanoseconds; none when the reply has none or it does not parse in the
/// agent's format.
pub fn certificate_expiry(reply: Option<&str>) -> (r: Option<(i64, u32)>)
    ensures
        r == match reply { Some(t) => datetime_parsed(t@, ssl_expiry_format()), None => None },
{
    match reply {
        Some(t) => parse_datetime_utc(t, "%Y-%m-%d %H:%M:%S%.f UTC"),
        None => None,
    }
}

} // verus!
