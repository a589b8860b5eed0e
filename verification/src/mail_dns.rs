//! The DNS records published, and removed again, for a mail domain when
//! its parent zone is managed by the panel (Cloudflare or PowerDNS).

use vstd::prelude::*;

use crate::agent_body::{AgentBody, JsonScalar, Scalar};
use crate::domain::{extract_parent_domain, mail_parent};
use crate::mail::{dkim_txt, dkim_txt_of};
use crate::text::{chars_of, concat2, concat3, str_eq};

verus! {

/// The stored zone that holds a mail domain.
pub struct MailZone {
    pub provider: String,
    pub cf_zone_id: Option<String>,
    pub cf_api_token: Option<String>,
}

/// A record created through Cloudflare: type, name, content, for MX the
/// priority, the `proxied` flag where one is sent (`false` for the A
/// record: mail cannot pass Cloudflare's proxy), and the TTL (1: automatic).
pub struct CfRecord {
    pub kind: String,
    pub name: String,
    pub content: String,
    pub priority: Option<u16>,
    pub proxied: Option<bool>,
    pub ttl: u32,
}

impl View for CfRecord {
    type V = (Seq<char>, Seq<char>, Seq<char>, Option<u16>, Option<bool>, u32);

    open spec fn view(&self) -> (Seq<char>, Seq<char>, Seq<char>, Option<u16>, Option<bool>, u32) {
        (self.kind@, self.name@, self.content@, self.priority, self.proxied, self.ttl)
    }
}

/// A PowerDNS rrset change: name and type, and the single record that
/// replaces the set (none when the set is deleted).
pub struct RrsetChange {
    pub name: String,
    pub kind: String,
    pub content: Option<String>,
}

impl View for RrsetChange {
    type V = (Seq<char>, Seq<char>, Option<Seq<char>>);

    open spec fn view(&self) -> (Seq<char>, Seq<char>, Option<Seq<char>>) {
        (self.name@, self.kind@, self.content.deep_view())
    }
}

/// What is done with a mail domain's records.
pub enum MailDnsPlan {
    /// The panel manages no zone for it, or one of another provider.
    Nothing,
    /// Records created (or names cleaned up) in a Cloudflare zone.
    Cloudflare { zone_id: String, token: String, records: Vec<CfRecord>, names: Vec<String> },
    /// One PATCH of the zone's rrsets.
    PowerDns { zone_fqdn: String, rrsets: Vec<RrsetChange> },
}

/// Why a mail domain's records were not published.
#[derive(Debug, Clone, Copy, PartialEq, Eq, Structural)]
pub enum MailDnsError {
    NoServerIp,
    CloudflareIncomplete,
    PowerDnsNotConfigured,
}

impl MailDnsError {
    pub fn message(&self) -> (m: &'static str)
        ensures
            m@ == match self {
                MailDnsError::NoServerIp => "Could not detect server public IP"@,
                MailDnsError::CloudflareIncomplete => "Cloudflare zone missing zone_id or token"@,
                MailDnsError::PowerDnsNotConfigured => "PowerDNS not configured"@,
            },
    {
        match self {
            MailDnsError::NoServerIp => "Could not detect server public IP",
            MailDnsError::CloudflareIncomplete => "Cloudflare zone missing zone_id or token",
            MailDnsError::PowerDnsNotConfigured => "PowerDNS not configured",
        }
    }
}

/// The records created in a Cloudflare zone: the domain's A record, MX to
/// itself, SPF, DMARC, and DKIM when the domain has a key.
pub open spec fn cf_records_of(domain: Seq<char>, selector: Seq<char>, dkim: Option<Seq<char>>, ip: Seq<char>)
    -> Seq<(Seq<char>, Seq<char>, Seq<char>, Option<u16>, Option<bool>, u32)>
{
    let base = seq![
        ("A"@, domain, ip, None::<u16>, Some(false), 1u32),
        ("MX"@, domain, domain, Some(10u16), None::<bool>, 1u32),
        ("TXT"@, domain, "v=spf1 ip4:"@ + ip + " -all"@, None::<u16>, None::<bool>, 1u32),
        ("TXT"@, "_dmarc."@ + domain, "v=DMARC1; p=quarantine; rua=mailto:postmaster@"@ + domain, None::<u16>, None::<bool>, 1u32),
    ];
    match dkim {
        Some(k) => base.push(("TXT"@, selector + "._domainkey."@ + domain, dkim_txt_of(k), None::<u16>, None::<bool>, 1u32)),
        None => base,
    }
}

/// The zone's name as PowerDNS writes it, with the final dot.
pub open spec fn fqdn_of(name: Seq<char>) -> Seq<char> {
    if name.len() > 0 && name.last() == '.' { name } else { name + "."@ }
}

/// The rrsets a PowerDNS zone gets: the same records as with Cloudflare,
/// under fully qualified names and with TXT contents quoted.
pub open spec fn pdns_rrsets_of(domain: Seq<char>, selector: Seq<char>, dkim: Option<Seq<char>>, ip: Seq<char>)
    -> Seq<(Seq<char>, Seq<char>, Option<Seq<char>>)>
{
    let fq = domain + "."@;
    let base = seq![
        (fq, "A"@, Some(ip)),
        (fq, "MX"@, Some("10 "@ + fq)),
        (fq, "TXT"@, Some("\"v=spf1 ip4:"@ + ip + " -all\""@)),
        ("_dmarc."@ + fq, "TXT"@, Some("\"v=DMARC1; p=quarantine; rua=mailto:postmaster@"@ + domain + "\""@)),
    ];
    match dkim {
        Some(k) => base.push((selector + "._domainkey."@ + fq, "TXT"@, Some("\""@ + dkim_txt_of(k) + "\""@))),
        None => base,
    }
}

/// The names whose Cloudflare records are removed with the domain.
pub open spec fn cf_cleanup_names_of(domain: Seq<char>, selector: Seq<char>) -> Seq<Seq<char>> {
    seq![domain, "_dmarc."@ + domain, selector + "._domainkey."@ + domain]
}

/// The rrsets a PowerDNS zone loses with the domain.
pub open spec fn pdns_deletions_of(domain: Seq<char>, selector: Seq<char>) -> Seq<(Seq<char>, Seq<char>, Option<Seq<char>>)> {
    let fq = domain + "."@;
    seq![
        (fq, "A"@, None::<Seq<char>>),
        (fq, "MX"@, None::<Seq<char>>),
        (fq, "TXT"@, None::<Seq<char>>),
        ("_dmarc."@ + fq, "TXT"@, None::<Seq<char>>),
        (selector + "._domainkey."@ + fq, "TXT"@, None::<Seq<char>>),
    ]
}

fn cf_record(kind: &str, name: String, content: String, priority: Option<u16>, proxied: Option<bool>) -> (r: CfRecord)
    ensures
        r@ == (kind@, name@, content@, priority, proxied, 1u32),
{
    CfRecord { kind: String::from_str(kind), name, content, priority, proxied, ttl: 1 }
}

fn rrset(name: String, kind: &str, content: Option<String>) -> (r: RrsetChange)
    ensures
        r@ == (name@, kind@, content.deep_view()),
{
    RrsetChange { name, kind: String::from_str(kind), content }
}

fn quoted(s: &str) -> (q: String)
    ensures
        q@ == "\""@ + s@ + "\""@,
{
    concat3("\"", s, "\"")
}

/// The zone's name with a final dot.
pub fn fqdn(name: &str) -> (s: String)
    ensures
        s@ == fqdn_of(name@),
{
    let cs = chars_of(name);
    if cs.len() > 0 && cs[cs.len() - 1] == '.' {
        String::from_str(name)
    } else {
        concat2(name, ".")
    }
}

fn cf_records(domain: &str, selector: &str, dkim_public_key: Option<&str>, ip: &str) -> (v: Vec<CfRecord>)
    ensures
        v@.map_values(|r: CfRecord| r@) == cf_records_of(domain@, selector@, dkim_public_key.deep_view(), ip@),
{
    let mut v: Vec<CfRecord> = Vec::new();
    v.push(cf_record("A", String::from_str(domain), String::from_str(ip), None, Some(false)));
    v.push(cf_record("MX", String::from_str(domain), String::from_str(domain), Some(10), None));
    v.push(cf_record("TXT", String::from_str(domain), concat3("v=spf1 ip4:", ip, " -all"), None, None));
    v.push(cf_record("TXT", concat2("_dmarc.", domain),
        concat2("v=DMARC1; p=quarantine; rua=mailto:postmaster@", domain), None, None));
    if let Some(k) = dkim_public_key {
        v.push(cf_record("TXT", concat3(selector, "._domainkey.", domain), dkim_txt(k), None, None));
    }
    assert(v@.map_values(|r: CfRecord| r@) =~= cf_records_of(domain@, selector@, dkim_public_key.deep_view(), ip@));
    v
}

fn pdns_rrsets(domain: &str, selector: &str, dkim_public_key: Option<&str>, ip: &str) -> (v: Vec<RrsetChange>)
    ensures
        v@.map_values(|r: RrsetChange| r@) == pdns_rrsets_of(domain@, selector@, dkim_public_key.deep_view(), ip@),
{
    let fq = concat2(domain, ".");
    let mut v: Vec<RrsetChange> = Vec::new();
    v.push(rrset(String::from_str(fq.as_str()), "A", Some(String::from_str(ip))));
    v.push(rrset(String::from_str(fq.as_str()), "MX", Some(concat2("10 ", fq.as_str()))));
    v.push(rrset(String::from_str(fq.as_str()), "TXT", Some(concat3("\"v=spf1 ip4:", ip, " -all\""))));
    v.push(rrset(concat2("_dmarc.", fq.as_str()), "TXT",
        Some(concat3("\"v=DMARC1; p=quarantine; rua=mailto:postmaster@", domain, "\""))));
    if let Some(k) = dkim_public_key {
        let t = dkim_txt(k);
        v.push(rrset(concat3(selector, "._domainkey.", fq.as_str()), "TXT", Some(quoted(t.as_str()))));
    }
    assert(v@.map_values(|r: RrsetChange| r@) =~= pdns_rrsets_of(domain@, selector@, dkim_public_key.deep_view(), ip@));
    v
}

/// The first value stored under a key.
pub open spec fn first_value_for(rows: Seq<(Seq<char>, Seq<char>)>, key: Seq<char>) -> Option<Seq<char>>
    decreases rows.len(),
{
    if rows.len() == 0 {
        None
    } else if rows[0].0 == key {
        Some(rows[0].1)
    } else {
        first_value_for(rows.drop_first(), key)
    }
}

proof fn lemma_first_value_step(rows: Seq<(Seq<char>, Seq<char>)>, key: Seq<char>, i: int)
    requires
        0 <= i < rows.len(),
        forall|j: int| 0 <= j < i ==> rows[j].0 != key,
    ensures
        first_value_for(rows, key) == first_value_for(rows.skip(i), key),
    decreases i,
{
    if i > 0 {
        lemma_first_value_step(rows.drop_first(), key, i - 1);
        assert(rows.drop_first().skip(i - 1) =~= rows.skip(i));
    } else {
        assert(rows.skip(0) =~= rows);
    }
}

proof fn lemma_first_value_none(rows: Seq<(Seq<char>, Seq<char>)>, key: Seq<char>)
    requires
        forall|j: int| 0 <= j < rows.len() ==> rows[j].0 != key,
    ensures
        first_value_for(rows, key) is None,
    decreases rows.len(),
{
    if rows.len() > 0 {
        lemma_first_value_none(rows.drop_first(), key);
    }
}

fn first_value(rows: &Vec<(String, String)>, key: &str) -> (r: Option<String>)
    ensures
        r.deep_view() == first_value_for(rows@.map_values(|e: (String, String)| (e.0@, e.1@)), key@),
{
    let ghost m = rows@.map_values(|e: (String, String)| (e.0@, e.1@));
    let mut i: usize = 0;
    while i < rows.len()
        invariant
            i <= rows@.len(),
            m == rows@.map_values(|e: (String, String)| (e.0@, e.1@)),
            forall|j: int| 0 <= j < i ==> m[j].0 != key@,
        decreases rows@.len() - i,
    {
        if str_eq(rows[i].0.as_str(), key) {
            proof {
                lemma_first_value_step(m, key@, i as int);
                assert(m.skip(i as int)[0] == m[i as int]);
            }
            return Some(String::from_str(rows[i].1.as_str()));
        }
        i = i + 1;
    }
    proof {
        lemma_first_value_none(m, key@);
    }
    None
}

/// The PowerDNS API address and (encrypted) key among the stored settings,
/// when both are there.
pub fn pdns_config(rows: &Vec<(String, String)>) -> (r: Option<(String, String)>)
    ensures
        ({
            let m = rows@.map_values(|e: (String, String)| (e.0@, e.1@));
            match (first_value_for(m, "pdns_api_url"@), first_value_for(m, "pdns_api_key"@)) {
                (Some(u), Some(k)) => r matches Some((u2, k2)) && u2@ == u && k2@ == k,
                _ => r is None,
            }
        }),
{
    let u = first_value(rows, "pdns_api_url");
    let k = first_value(rows, "pdns_api_key");
    match (u, k) {
        (Some(u), Some(k)) => Some((u, k)),
        _ => None,
    }
}

/// What publishing a new mail domain's records does: nothing without a
/// managed zone; otherwise the server's address is needed; a Cloudflare
/// zone needs its id and token and gets the records one by one; a PowerDNS
/// zone needs the API configured and gets all records in one change.
pub fn plan_mail_dns(
    domain: &str,
    selector: &str,
    dkim_public_key: Option<&str>,
    zone: Option<&MailZone>,
    server_ip: &str,
    pdns_configured: bool,
) -> (r: Result<MailDnsPlan, MailDnsError>)
    ensures
        match zone {
            None => r matches Ok(MailDnsPlan::Nothing),
            Some(z) => if server_ip@.len() == 0 {
                r == Err::<MailDnsPlan, MailDnsError>(MailDnsError::NoServerIp)
            } else if z.provider@ == "cloudflare"@ {
                match (z.cf_zone_id, z.cf_api_token) {
                    (Some(id), Some(t)) => r matches Ok(MailDnsPlan::Cloudflare { zone_id, token, records, names })
                        && zone_id@ == id@ && token@ == t@ && names@.len() == 0
                        && records@.map_values(|x: CfRecord| x@)
                            == cf_records_of(domain@, selector@, dkim_public_key.deep_view(), server_ip@),
                    _ => r == Err::<MailDnsPlan, MailDnsError>(MailDnsError::CloudflareIncomplete),
                }
            } else if z.provider@ == "powerdns"@ {
                if pdns_configured {
                    r matches Ok(MailDnsPlan::PowerDns { zone_fqdn, rrsets })
                        && zone_fqdn@ == fqdn_of(mail_parent(domain@))
                        && rrsets@.map_values(|x: RrsetChange| x@)
                            == pdns_rrsets_of(domain@, selector@, dkim_public_key.deep_view(), server_ip@)
                } else {
                    r == Err::<MailDnsPlan, MailDnsError>(MailDnsError::PowerDnsNotConfigured)
                }
            } else {
                r matches Ok(MailDnsPlan::Nothing)
            },
        },
{
    let z = match zone {
        None => return Ok(MailDnsPlan::Nothing),
        Some(z) => z,
    };
    if chars_of(server_ip).len() == 0 {
        return Err(MailDnsError::NoServerIp);
    }
    if str_eq(z.provider.as_str(), "cloudflare") {
        match (&z.cf_zone_id, &z.cf_api_token) {
            (Some(id), Some(t)) => Ok(MailDnsPlan::Cloudflare {
                zone_id: String::from_str(id.as_str()),
                token: String::from_str(t.as_str()),
                records: cf_records(domain, selector, dkim_public_key, server_ip),
                names: Vec::new(),
            }),
            _ => Err(MailDnsError::CloudflareIncomplete),
        }
    } else if str_eq(z.provider.as_str(), "powerdns") {
        if pdns_configured {
            let parent = extract_parent_domain(domain);
            Ok(MailDnsPlan::PowerDns {
                zone_fqdn: fqdn(parent.as_str()),
                rrsets: pdns_rrsets(domain, selector, dkim_public_key, server_ip),
            })
        } else {
            Err(MailDnsError::PowerDnsNotConfigured)
        }
    } else {
        Ok(MailDnsPlan::Nothing)
    }
}

/// What removing a mail domain's records does: nothing without a managed
/// zone (or, for PowerDNS, without the API configured); a Cloudflare zone
/// needs its id and token and has every record under the domain's three
/// names removed; a PowerDNS zone loses the five rrsets in one change.
pub fn plan_mail_dns_cleanup(
    domain: &str,
    selector: &str,
    zone: Option<&MailZone>,
    pdns_configured: bool,
) -> (r: Result<MailDnsPlan, MailDnsError>)
    ensures
        match zone {
            None => r matches Ok(MailDnsPlan::Nothing),
            Some(z) => if z.provider@ == "cloudflare"@ {
                match (z.cf_zone_id, z.cf_api_token) {
                    (Some(id), Some(t)) => r matches Ok(MailDnsPlan::Cloudflare { zone_id, token, records, names })
                        && zone_id@ == id@ && token@ == t@ && records@.len() == 0
                        && names@.map_values(|n: String| n@) == cf_cleanup_names_of(domain@, selector@),
                    _ => r == Err::<MailDnsPlan, MailDnsError>(MailDnsError::CloudflareIncomplete),
                }
            } else if z.provider@ == "powerdns"@ && pdns_configured {
                r matches Ok(MailDnsPlan::PowerDns { zone_fqdn, rrsets })
                    && zone_fqdn@ == fqdn_of(mail_parent(domain@))
                    && rrsets@.map_values(|x: RrsetChange| x@) == pdns_deletions_of(domain@, selector@)
            } else {
                r matches Ok(MailDnsPlan::Nothing)
            },
        },
{
    let z = match zone {
        None => return Ok(MailDnsPlan::Nothing),
        Some(z) => z,
    };
    if str_eq(z.provider.as_str(), "cloudflare") {
        match (&z.cf_zone_id, &z.cf_api_token) {
            (Some(id), Some(t)) => {
                let mut names: Vec<String> = Vec::new();
                names.push(String::from_str(domain));
                names.push(concat2("_dmarc.", domain));
                names.push(concat3(selector, "._domainkey.", domain));
                assert(names@.map_values(|n: String| n@) =~= cf_cleanup_names_of(domain@, selector@));
                Ok(MailDnsPlan::Cloudflare {
                    zone_id: String::from_str(id.as_str()),
                    token: String::from_str(t.as_str()),
                    records: Vec::new(),
                    names,
                })
            },
            _ => Err(MailDnsError::CloudflareIncomplete),
        }
    } else if str_eq(z.provider.as_str(), "powerdns") && pdns_configured {
        let parent = extract_parent_domain(domain);
        let fq = concat2(domain, ".");
        let mut v: Vec<RrsetChange> = Vec::new();
        v.push(rrset(String::from_str(fq.as_str()), "A", None));
        v.push(rrset(String::from_str(fq.as_str()), "MX", None));
        v.push(rrset(String::from_str(fq.as_str()), "TXT", None));
        v.push(rrset(concat2("_dmarc.", fq.as_str()), "TXT", None));
        v.push(rrset(concat3(selector, "._domainkey.", fq.as_str()), "TXT", None));
        assert(v@.map_values(|x: RrsetChange| x@) =~= pdns_deletions_of(domain@, selector@));
        Ok(MailDnsPlan::PowerDns { zone_fqdn: fqdn(parent.as_str()), rrsets: v })
    } else {
        Ok(MailDnsPlan::Nothing)
    }
}

/// What the agent is sent to issue the mail host's certificate once its
/// records are published.
pub fn mail_ssl_body(email: &str) -> (b: AgentBody)
    ensures
        b@ == seq![("email"@, Scalar::Str(email@)), ("runtime"@, Scalar::Str("static"@))],
{
    let mut b = AgentBody::new();
    b.set("email", JsonScalar::Str(String::from_str(email)));
    b.set("runtime", JsonScalar::Str(String::from_str("static")));
    assert(b@ =~= seq![("email"@, Scalar::Str(email@)), ("runtime"@, Scalar::Str("static"@))]);
    b
}

} // verus!
