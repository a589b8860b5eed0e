//! What happens around a site's life beyond its own configuration: on
//! creation its A record in a managed DNS zone, the certificate request and
//! its retries, and the firewall rule that keeps an app's port private; on
//! removal the firewall rules, cache and record that go with it.

use vstd::prelude::*;

use crate::agent_body::{AgentBody, JsonScalar, Scalar};
use crate::domain::{site_parent, site_parent_domain};
use crate::mail_dns::{fqdn, fqdn_of, MailZone};
use crate::site_settings::ProvisionStep;
use crate::sites::{php_socket, php_socket_of};
use crate::text::{concat2, contains_str, chars_of, has_infix, i64_decimal, signed_decimal_of, str_eq, to_lowercase, unicode_lower};

verus! {

/// Where a new site's A record is published.
pub enum SiteDnsPlan {
    /// No managed zone holds the site, or its credentials are missing.
    Nothing,
    /// A proxied A record in a Cloudflare zone.
    Cloudflare { zone_id: String, token: String, name: String, content: String },
    /// One A rrset (TTL 300) replaced in a PowerDNS zone.
    PowerDns { zone_fqdn: String, name: String, content: String },
}

/// The A record of a new site: in the zone of its parent domain when the
/// panel manages that zone and has what the provider needs; otherwise
/// nothing is published.
pub fn site_dns_plan(domain: &str, zone: Option<&MailZone>, server_ip: &str, pdns_configured: bool) -> (r: SiteDnsPlan)
    ensures
        match zone {
            None => r is Nothing,
            Some(z) => if z.provider@ == "cloudflare"@ {
                match (z.cf_zone_id, z.cf_api_token) {
                    (Some(id), Some(t)) => r matches SiteDnsPlan::Cloudflare { zone_id, token, name, content }
                        && zone_id@ == id@ && token@ == t@ && name@ == domain@ && content@ == server_ip@,
                    _ => r is Nothing,
                }
            } else if z.provider@ == "powerdns"@ && pdns_configured {
                r matches SiteDnsPlan::PowerDns { zone_fqdn, name, content }
                    && zone_fqdn@ == fqdn_of(site_parent(domain@))
                    && name@ == domain@ + "."@ && content@ == server_ip@
            } else {
                r is Nothing
            },
        },
{
    let z = match zone {
        None => return SiteDnsPlan::Nothing,
        Some(z) => z,
    };
    if str_eq(z.provider.as_str(), "cloudflare") {
        match (&z.cf_zone_id, &z.cf_api_token) {
            (Some(id), Some(t)) => SiteDnsPlan::Cloudflare {
                zone_id: String::from_str(id.as_str()),
                token: String::from_str(t.as_str()),
                name: String::from_str(domain),
                content: String::from_str(server_ip),
            },
            _ => SiteDnsPlan::Nothing,
        }
    } else if str_eq(z.provider.as_str(), "powerdns") && pdns_configured {
        let parent = site_parent_domain(domain);
        SiteDnsPlan::PowerDns {
            zone_fqdn: fqdn(parent.as_str()),
            name: concat2(domain, "."),
            content: String::from_str(server_ip),
        }
    } else {
        SiteDnsPlan::Nothing
    }
}

/// The step shown once the site's A record is published.
pub fn dns_record_step() -> (p: ProvisionStep)
    ensures
        p@ == ("dns"@, "Creating DNS record"@, "done"@, None::<Seq<char>>),
{
    ProvisionStep::new("dns", "Creating DNS record", "done", None)
}

/// What follows the agent's answer to a new site's web-server
/// configuration.
pub enum ConfigOutcome {
    /// The new site's row is committed and marked active; the step is
    /// reported done.
    Commit { step: ProvisionStep },
    /// The new row is rolled back, the failure is reported in these steps,
    /// the site's progress log is dropped after the given seconds, and the
    /// request fails as an agent error of the given context.
    RollBack { steps: Vec<ProvisionStep>, forget_after_secs: u64, context: &'static str },
}

/// Decides what a new site's creation does after the agent answered its
/// configuration: commit on success, roll back with the agent's error
/// otherwise.
pub fn after_site_config(agent: Result<(), String>) -> (r: ConfigOutcome)
    ensures
        match agent {
            Ok(_) => r matches ConfigOutcome::Commit { step }
                && step@ == ("nginx"@, "Configuring web server"@, "done"@, None::<Seq<char>>),
            Err(e) => r matches ConfigOutcome::RollBack { steps, forget_after_secs, context }
                && steps@.map_values(|s: ProvisionStep| s@) == seq![
                    ("nginx"@, "Configuring web server"@, "error"@, Some("Agent error: "@ + e@)),
                    ("complete"@, "Provisioning failed"@, "error"@, None::<Seq<char>>),
                ]
                && forget_after_secs == 30
                && context@ == "Site configuration"@,
        },
{
    match agent {
        Ok(_) => ConfigOutcome::Commit { step: ProvisionStep::new("nginx", "Configuring web server", "done", None) },
        Err(e) => {
            let msg = concat2("Agent error: ", e.as_str());
            let mut steps: Vec<ProvisionStep> = Vec::new();
            steps.push(ProvisionStep::new("nginx", "Configuring web server", "error", Some(msg)));
            steps.push(ProvisionStep::new("complete", "Provisioning failed", "error", None));
            assert(steps@.map_values(|s: ProvisionStep| s@) =~= seq![
                ("nginx"@, "Configuring web server"@, "error"@, Some("Agent error: "@ + e@)),
                ("complete"@, "Provisioning failed"@, "error"@, None::<Seq<char>>),
            ]);
            ConfigOutcome::RollBack { steps, forget_after_secs: 30, context: "Site configuration" }
        },
    }
}

/// What the agent is sent to issue a new site's certificate: the owner's
/// e-mail, the runtime, the PHP socket and the app port (each `null` when
/// absent), and the PHP preset when there is one.
pub open spec fn auto_ssl_body_of(
    email: Seq<char>,
    runtime: Seq<char>,
    php_version: Option<Seq<char>>,
    proxy_port: Option<i32>,
    php_preset: Option<Seq<char>>,
) -> Seq<(Seq<char>, Scalar)> {
    let b = seq![
        ("email"@, Scalar::Str(email)),
        ("runtime"@, Scalar::Str(runtime)),
        ("php_socket"@, match php_version { Some(v) => Scalar::Str(php_socket_of(v)), None => Scalar::Null }),
        ("proxy_port"@, match proxy_port { Some(p) => Scalar::Int(p as i64), None => Scalar::Null }),
    ];
    match php_preset {
        Some(p) => b.push(("php_preset"@, Scalar::Str(p))),
        None => b,
    }
}

pub fn auto_ssl_body(
    email: &str,
    runtime: &str,
    php_version: &Option<String>,
    proxy_port: Option<i32>,
    php_preset: &Option<String>,
) -> (b: AgentBody)
    ensures
        b@ == auto_ssl_body_of(email@, runtime@, php_version.deep_view(), proxy_port, php_preset.deep_view()),
{
    let mut b = AgentBody::new();
    b.set("email", JsonScalar::Str(String::from_str(email)));
    b.set("runtime", JsonScalar::Str(String::from_str(runtime)));
    match php_version {
        Some(v) => b.set("php_socket", JsonScalar::Str(php_socket(v.as_str()))),
        None => b.set("php_socket", JsonScalar::Null),
    }
    match proxy_port {
        Some(p) => b.set("proxy_port", JsonScalar::Int(p as i64)),
        None => b.set("proxy_port", JsonScalar::Null),
    }
    if let Some(p) = php_preset {
        b.set("php_preset", JsonScalar::Str(String::from_str(p.as_str())));
    }
    assert(b@ =~= auto_ssl_body_of(email@, runtime@, php_version.deep_view(), proxy_port, php_preset.deep_view()));
    b
}

/// The waits, in seconds, before each attempt to issue a new site's
/// certificate.
pub open spec fn ssl_retry_delays_of() -> Seq<u64> {
    seq![3u64, 30u64, 120u64, 300u64]
}

pub fn ssl_retry_delays() -> (v: Vec<u64>)
    ensures
        v@ == ssl_retry_delays_of(),
{
    let v: Vec<u64> = vec![3, 30, 120, 300];
    assert(v@ =~= ssl_retry_delays_of());
    v
}

/// The step shown after a failed attempt (counted from 0): none while
/// attempts remain; after the last, the certificate is marked skipped.
pub fn ssl_attempt_failed(attempt: usize, attempts: usize) -> (r: Option<ProvisionStep>)
    ensures
        attempt + 1 == attempts ==> (r matches Some(p) && p@ == ("ssl"@, "SSL certificate"@, "error"@,
            Some("Skipped — can be provisioned manually from site settings"@))),
        attempt + 1 != attempts ==> r is None,
{
    if attempt < attempts && attempt == attempts - 1 {
        Some(ProvisionStep::new("ssl", "SSL certificate", "error",
            Some(String::from_str("Skipped — can be provisioned manually from site settings"))))
    } else {
        None
    }
}

/// The rule that keeps an app's port closed from outside (nginx reaches
/// it locally): deny TCP to the port, from anywhere. The port is cut to
/// 16 bits as the rule takes it.
pub fn port_block_rule(port: i32) -> (b: AgentBody)
    ensures
        b@ == seq![
            ("port"@, Scalar::Int((port as u16) as i64)),
            ("proto"@, Scalar::Str("tcp"@)),
            ("action"@, Scalar::Str("deny"@)),
            ("from"@, Scalar::Null),
        ],
{
    let mut b = AgentBody::new();
    #[verifier::truncate]
    let p: u16 = port as u16;
    b.set("port", JsonScalar::Int(p as i64));
    b.set("proto", JsonScalar::Str(String::from_str("tcp")));
    b.set("action", JsonScalar::Str(String::from_str("deny")));
    b.set("from", JsonScalar::Null);
    assert(b@ =~= seq![
        ("port"@, Scalar::Int((port as u16) as i64)),
        ("proto"@, Scalar::Str("tcp"@)),
        ("action"@, Scalar::Str("deny"@)),
        ("from"@, Scalar::Null),
    ]);
    b
}

// ─── Removing a site ───────────────────────────────────────────

/// A firewall rule as the agent lists it: its port text (`8080/tcp`), its
/// action and its number, each where given with the right JSON type.
pub struct FirewallRuleInfo {
    pub port: Option<String>,
    pub action: Option<String>,
    pub number: Option<u64>,
}

pub open spec fn text_or_empty(v: Option<String>) -> Seq<char> {
    match v {
        Some(s) => s@,
        None => Seq::empty(),
    }
}

/// A rule that blocked a removed site's app port: it is for that port over
/// TCP and its action, lower-cased, says `deny`.
pub open spec fn blocks_port(r: FirewallRuleInfo, port: i32) -> bool {
    text_or_empty(r.port) == signed_decimal_of(port as int) + "/tcp"@
        && has_infix(unicode_lower(text_or_empty(r.action)), "deny"@)
}

/// The numbers of the rules to delete, in the listed order (a matching rule
/// without a number is skipped).
pub open spec fn rules_to_remove_of(rules: Seq<FirewallRuleInfo>, port: i32) -> Seq<u64>
    decreases rules.len(),
{
    if rules.len() == 0 {
        Seq::empty()
    } else {
        let p = rules_to_remove_of(rules.drop_last(), port);
        let r = rules.last();
        if blocks_port(r, port) && r.number is Some {
            p.push(r.number->0)
        } else {
            p
        }
    }
}

fn text_of(v: &Option<String>) -> (s: String)
    ensures
        s@ == text_or_empty(*v),
{
    match v {
        Some(x) => String::from_str(x.as_str()),
        None => String::new(),
    }
}

pub fn firewall_rules_to_remove(rules: &Vec<FirewallRuleInfo>, port: i32) -> (v: Vec<u64>)
    ensures
        v@ == rules_to_remove_of(rules@, port),
{
    let mut want = i64_decimal(port as i64);
    want.append("/tcp");
    let mut v: Vec<u64> = Vec::new();
    let mut i: usize = 0;
    while i < rules.len()
        invariant
            i <= rules@.len(),
            want@ == signed_decimal_of(port as int) + "/tcp"@,
            v@ == rules_to_remove_of(rules@.take(i as int), port),
        decreases rules@.len() - i,
    {
        assert(rules@.take(i + 1).drop_last() =~= rules@.take(i as int));
        let r = &rules[i];
        let pt = text_of(&r.port);
        let act = text_of(&r.action);
        let low = to_lowercase(act.as_str());
        let lc = chars_of(low.as_str());
        if str_eq(pt.as_str(), want.as_str()) && contains_str(lc.as_slice(), "deny") {
            if let Some(n) = r.number {
                v.push(n);
            }
        }
        i = i + 1;
    }
    assert(rules@.take(i as int) =~= rules@);
    v
}

/// What the agent is sent to empty a removed site's Redis database.
pub fn redis_purge_body(redis_db: i32) -> (b: AgentBody)
    ensures
        b@ == seq![("redis_db"@, Scalar::Int(redis_db as i64))],
{
    let mut b = AgentBody::new();
    b.set("redis_db", JsonScalar::Int(redis_db as i64));
    assert(b@ =~= seq![("redis_db"@, Scalar::Int(redis_db as i64))]);
    b
}

/// The A records of a removed site to delete from a Cloudflare zone: those
/// (id, content) the zone lists whose content is the server's address.
pub open spec fn cf_ids_to_delete_of(records: Seq<(Option<Seq<char>>, Option<Seq<char>>)>, server_ip: Seq<char>) -> Seq<Seq<char>>
    decreases records.len(),
{
    if records.len() == 0 {
        Seq::empty()
    } else {
        let p = cf_ids_to_delete_of(records.drop_last(), server_ip);
        let r = records.last();
        if r.0 is Some && r.1 == Some(server_ip) { p.push(r.0->0) } else { p }
    }
}

pub fn cf_ids_to_delete(records: &Vec<(Option<String>, Option<String>)>, server_ip: &str) -> (v: Vec<String>)
    ensures
        v@.map_values(|x: String| x@) == cf_ids_to_delete_of(records.deep_view(), server_ip@),
{
    let ghost m = records.deep_view();
    let mut v: Vec<String> = Vec::new();
    let mut i: usize = 0;
    while i < records.len()
        invariant
            i <= records@.len(),
            m == records.deep_view(),
            m.len() == records@.len(),
            v@.map_values(|x: String| x@) == cf_ids_to_delete_of(m.take(i as int), server_ip@),
        decreases records@.len() - i,
    {
        assert(m.take(i + 1).drop_last() =~= m.take(i as int));
        assert(m[i as int] == records@[i as int].deep_view());
        let ghost before = v@.map_values(|x: String| x@);
        match (&records[i].0, &records[i].1) {
            (Some(id), Some(c)) => {
                if str_eq(c.as_str(), server_ip) {
                    v.push(String::from_str(id.as_str()));
                    assert(v@.map_values(|x: String| x@) =~= before.push(id@));
                }
            },
            _ => {},
        }
        i = i + 1;
    }
    assert(m.take(i as int) =~= m);
    v
}

/// What follows the agent's answer to the removal of a site's web-server
/// configuration, files and logs.
pub enum RemovalStep {
    /// Its crons, monitors, status-page component and records are removed.
    DeleteRecords,
    /// The removal stops with an agent error of the given context; every
    /// record stays.
    Stop { context: &'static str },
}

/// Decides how a site's removal goes on after the agent answered: the
/// records go only once the agent has removed the site.
pub fn after_site_teardown(agent_ok: bool) -> (r: RemovalStep)
    ensures
        agent_ok ==> r is DeleteRecords,
        !agent_ok ==> (r matches RemovalStep::Stop { context } && context@ == "Site removal"@),
{
    if agent_ok { RemovalStep::DeleteRecords } else { RemovalStep::Stop { context: "Site removal" } }
}

/// Where a removed site's A record is taken out.
pub enum SiteDnsCleanup {
    Nothing,
    /// The zone's A records under the site's name are listed, and those
    /// pointing at this server deleted.
    Cloudflare { zone_id: String, token: String, name: String },
    /// The A rrset of the site is deleted.
    PowerDns { zone_fqdn: String, name: String },
}

/// The clean-up of a removed site's A record, in the zone of its parent
/// domain when the panel manages it and has what the provider needs.
pub fn site_dns_cleanup(domain: &str, zone: Option<&MailZone>, pdns_configured: bool) -> (r: SiteDnsCleanup)
    ensures
        match zone {
            None => r is Nothing,
            Some(z) => if z.provider@ == "cloudflare"@ {
                match (z.cf_zone_id, z.cf_api_token) {
                    (Some(id), Some(t)) => r matches SiteDnsCleanup::Cloudflare { zone_id, token, name }
                        && zone_id@ == id@ && token@ == t@ && name@ == domain@,
                    _ => r is Nothing,
                }
            } else if z.provider@ == "powerdns"@ && pdns_configured {
                r matches SiteDnsCleanup::PowerDns { zone_fqdn, name }
                    && zone_fqdn@ == fqdn_of(site_parent(domain@)) && name@ == domain@ + "."@
            } else {
                r is Nothing
            },
        },
{
    let z = match zone {
        None => return SiteDnsCleanup::Nothing,
        Some(z) => z,
    };
    if str_eq(z.provider.as_str(), "cloudflare") {
        match (&z.cf_zone_id, &z.cf_api_token) {
            (Some(id), Some(t)) => SiteDnsCleanup::Cloudflare {
                zone_id: String::from_str(id.as_str()),
                token: String::from_str(t.as_str()),
                name: String::from_str(domain),
            },
            _ => SiteDnsCleanup::Nothing,
        }
    } else if str_eq(z.provider.as_str(), "powerdns") && pdns_configured {
        let parent = site_parent_domain(domain);
        SiteDnsCleanup::PowerDns { zone_fqdn: fqdn(parent.as_str()), name: concat2(domain, ".") }
    } else {
        SiteDnsCleanup::Nothing
    }
}

} // verus!
