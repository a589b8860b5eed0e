use arcpanel::agent_body::JsonScalar;
use arcpanel::mail_dns::MailZone;
use arcpanel::site_provision::{
    auto_ssl_body, port_block_rule, site_dns_plan, ssl_attempt_failed, ssl_retry_delays, SiteDnsPlan,
};
use arcpanel::ssl::{
    certificate_expiry, check_issue, check_issue_dns01, dns_preflight, issue_body, pick_zone, profiles_path,
    resolve_profile, DnsZone, SslError,
};

fn zone(d: &str, id: Option<&str>, tok: Option<&str>) -> DnsZone {
    DnsZone {
        domain: d.into(),
        cf_zone_id: id.map(|s| s.into()),
        cf_api_token: tok.map(|s| s.into()),
        cf_api_email: None,
    }
}

#[test]
fn issue_checks() {
    assert_eq!(check_issue("creating", false, 0), Err(SslError::SiteNotActive));
    assert_eq!(check_issue("active", true, 0), Err(SslError::AlreadyEnabled));
    assert_eq!(check_issue("active", false, 10), Err(SslError::RateLimited));
    assert!(check_issue("active", false, 9).is_ok());
    assert_eq!(check_issue_dns01("creating", false, 0), Err(SslError::SiteNotActiveForDns01));
    assert_eq!(SslError::SiteNotActiveForDns01.message(), "Site must be active");
    assert_eq!(check_issue_dns01("active", false, 10), Err(SslError::RateLimited));
    assert!(check_issue_dns01("active", false, 0).is_ok());
    assert_eq!(SslError::RateLimited.status(), 429);
}

#[test]
fn preflight() {
    assert!(dns_preflight("a.example", "", &None).is_ok());
    assert!(dns_preflight("a.example", "1.2.3.4", &Some(vec!["5.6.7.8".into(), "1.2.3.4".into()])).is_ok());
    assert_eq!(
        dns_preflight("a.example", "1.2.3.4", &None).unwrap_err(),
        "Domain a.example could not be resolved. Ensure DNS is configured before provisioning SSL."
    );
    assert_eq!(
        dns_preflight("a.example", "1.2.3.4", &Some(vec!["5.6.7.8".into(), "9.9.9.9".into()])).unwrap_err(),
        "Domain a.example does not resolve to this server (1.2.3.4). DNS points to: 5.6.7.8, 9.9.9.9. Fix DNS before provisioning SSL."
    );
}

#[test]
fn longest_covering_zone_wins() {
    let zones = vec![
        zone("example.com", Some("z1"), Some("t1")),
        zone("shop.example.com", Some("z2"), Some("t2")),
        zone("other.org", Some("z3"), Some("t3")),
    ];
    assert_eq!(pick_zone(&zones, "a.shop.example.com", false).unwrap(), (1, "a.shop.example.com".to_string()));
    assert_eq!(pick_zone(&zones, "www.example.com", true).unwrap(), (0, "example.com".to_string()));
    assert_eq!(pick_zone(&zones, "example.com", false).unwrap().0, 0);
    assert_eq!(pick_zone(&zones, "badexample.com", false).unwrap_err(), SslError::NoZone);
    let partial = vec![zone("example.com", None, Some("t")), zone("x.org", Some("z"), None)];
    assert_eq!(pick_zone(&partial, "www.example.com", false).unwrap_err(), SslError::NoZoneId);
    assert_eq!(pick_zone(&partial, "x.org", false).unwrap_err(), SslError::NoZoneToken);
}

#[test]
fn profiles_and_bodies() {
    assert_eq!(resolve_profile(Some("shortlived"), &Some("classic".into())), Some("shortlived".to_string()));
    assert_eq!(resolve_profile(Some(""), &Some("classic".into())), Some("classic".to_string()));
    assert_eq!(resolve_profile(None, &Some(String::new())), None);
    assert_eq!(profiles_path("a+b@c.d"), "/ssl/profiles?email=a%2Bb%40c.d");
    let b = issue_body("a@b.c", "php", None, &Some("8.3".into()), &None, &None);
    assert_eq!(b.fields.len(), 3);
    assert!(matches!(&b.fields[2].1, JsonScalar::Str(s) if s == "/run/php/php8.3-fpm.sock"));
}

#[test]
fn certificate_expiry_parses_agent_format() {
    assert_eq!(certificate_expiry(Some("2024-01-02 03:04:05 UTC")), Some((1704164645, 0)));
    assert_eq!(certificate_expiry(Some("2024-01-02 03:04:05.5 UTC")), Some((1704164645, 500_000_000)));
    assert_eq!(certificate_expiry(Some("tomorrow")), None);
    assert_eq!(certificate_expiry(None), None);
}

#[test]
fn site_records_and_ssl_retries() {
    let cf = MailZone { provider: "cloudflare".into(), cf_zone_id: Some("z".into()), cf_api_token: Some("t".into()) };
    match site_dns_plan("blog.example.com", Some(&cf), "1.2.3.4", false) {
        SiteDnsPlan::Cloudflare { name, content, .. } => {
            assert_eq!(name, "blog.example.com");
            assert_eq!(content, "1.2.3.4");
        }
        _ => panic!("expected a Cloudflare record"),
    }
    let pd = MailZone { provider: "powerdns".into(), cf_zone_id: None, cf_api_token: None };
    match site_dns_plan("a.b.example.com", Some(&pd), "1.2.3.4", true) {
        SiteDnsPlan::PowerDns { zone_fqdn, name, .. } => {
            assert_eq!(zone_fqdn, "b.example.com.");
            assert_eq!(name, "a.b.example.com.");
        }
        _ => panic!("expected a PowerDNS record"),
    }
    assert!(matches!(site_dns_plan("a.example.com", Some(&pd), "1.2.3.4", false), SiteDnsPlan::Nothing));
    assert!(matches!(site_dns_plan("a.example.com", None, "1.2.3.4", true), SiteDnsPlan::Nothing));

    assert_eq!(ssl_retry_delays(), vec![3, 30, 120, 300]);
    assert!(ssl_attempt_failed(0, 4).is_none());
    let last = ssl_attempt_failed(3, 4).unwrap();
    assert_eq!(last.status, "error");
    assert_eq!(last.message.as_deref(), Some("Skipped — can be provisioned manually from site settings"));

    let b = auto_ssl_body("a@b.c", "static", &None, None, &None);
    assert_eq!(b.fields.len(), 4);
    assert!(matches!(b.fields[2].1, JsonScalar::Null));
    let b = auto_ssl_body("a@b.c", "php", &Some("8.2".into()), Some(5001), &Some("laravel".into()));
    assert_eq!(b.fields.len(), 5);
    assert!(matches!(&b.fields[2].1, JsonScalar::Str(s) if s == "unix:/run/php/php8.2-fpm.sock"));
    let r = port_block_rule(5001);
    assert!(matches!(r.fields[0].1, JsonScalar::Int(5001)));
}
