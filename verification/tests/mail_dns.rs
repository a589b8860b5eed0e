use arcpanel::mail_dns::{
    fqdn, mail_ssl_body, pdns_config, plan_mail_dns, plan_mail_dns_cleanup, MailDnsError,
    MailDnsPlan, MailZone,
};

fn zone(provider: &str, id: Option<&str>, token: Option<&str>) -> MailZone {
    MailZone {
        provider: provider.into(),
        cf_zone_id: id.map(|s| s.to_string()),
        cf_api_token: token.map(|s| s.to_string()),
    }
}

#[test]
fn no_zone_means_nothing() {
    assert!(matches!(plan_mail_dns("mail.example.com", "mail", None, None, "1.2.3.4", true), Ok(MailDnsPlan::Nothing)));
    assert!(matches!(plan_mail_dns_cleanup("mail.example.com", "mail", None, true), Ok(MailDnsPlan::Nothing)));
}

#[test]
fn cloudflare_records() {
    let z = zone("cloudflare", Some("zid"), Some("tok"));
    let p = plan_mail_dns("mail.example.com", "mail", None, Some(&z), "1.2.3.4", false).unwrap();
    match p {
        MailDnsPlan::Cloudflare { zone_id, token, records, names } => {
            assert_eq!(zone_id, "zid");
            assert_eq!(token, "tok");
            assert!(names.is_empty());
            assert_eq!(records.len(), 4);
            assert_eq!(records[0].kind, "A");
            assert_eq!(records[0].content, "1.2.3.4");
            assert_eq!(records[1].priority, Some(10));
            assert_eq!(records[0].proxied, Some(false));
            assert_eq!(records[1].proxied, None);
            assert!(records.iter().all(|r| r.ttl == 1));
            assert_eq!(records[2].content, "v=spf1 ip4:1.2.3.4 -all");
            assert_eq!(records[3].name, "_dmarc.mail.example.com");
            assert_eq!(records[3].content, "v=DMARC1; p=quarantine; rua=mailto:postmaster@mail.example.com");
        }
        _ => panic!("expected a Cloudflare plan"),
    }
    let pem = "-----BEGIN PUBLIC KEY-----\nABCD\r\nEF\n-----END PUBLIC KEY-----\n";
    let p = plan_mail_dns("mail.example.com", "mail", Some(pem), Some(&z), "1.2.3.4", false).unwrap();
    match p {
        MailDnsPlan::Cloudflare { records, .. } => {
            assert_eq!(records.len(), 5);
            assert_eq!(records[4].name, "mail._domainkey.mail.example.com");
            assert_eq!(records[4].content, "v=DKIM1; k=rsa; p=ABCDEF");
        }
        _ => panic!("expected a Cloudflare plan"),
    }
}

#[test]
fn errors() {
    let z = zone("cloudflare", Some("zid"), None);
    assert!(matches!(plan_mail_dns("m.example.com", "mail", None, Some(&z), "", false), Err(MailDnsError::NoServerIp)));
    assert!(matches!(plan_mail_dns("m.example.com", "mail", None, Some(&z), "1.1.1.1", false), Err(MailDnsError::CloudflareIncomplete)));
    let p = zone("powerdns", None, None);
    assert!(matches!(plan_mail_dns("m.example.com", "mail", None, Some(&p), "1.1.1.1", false), Err(MailDnsError::PowerDnsNotConfigured)));
    assert_eq!(MailDnsError::NoServerIp.message(), "Could not detect server public IP");
    let other = zone("route53", None, None);
    assert!(matches!(plan_mail_dns("m.example.com", "mail", None, Some(&other), "1.1.1.1", true), Ok(MailDnsPlan::Nothing)));
}

#[test]
fn powerdns_rrsets() {
    let p = zone("powerdns", None, None);
    match plan_mail_dns("mail.example.com", "dk", Some("KEY"), Some(&p), "9.9.9.9", true).unwrap() {
        MailDnsPlan::PowerDns { zone_fqdn, rrsets } => {
            assert_eq!(zone_fqdn, "example.com.");
            assert_eq!(rrsets.len(), 5);
            assert_eq!(rrsets[0].name, "mail.example.com.");
            assert_eq!(rrsets[1].content.as_deref(), Some("10 mail.example.com."));
            assert_eq!(rrsets[2].content.as_deref(), Some("\"v=spf1 ip4:9.9.9.9 -all\""));
            assert_eq!(rrsets[3].name, "_dmarc.mail.example.com.");
            assert_eq!(rrsets[4].name, "dk._domainkey.mail.example.com.");
            assert_eq!(rrsets[4].content.as_deref(), Some("\"v=DKIM1; k=rsa; p=KEY\""));
        }
        _ => panic!("expected a PowerDNS plan"),
    }
    match plan_mail_dns_cleanup("mail.example.com", "dk", Some(&p), true).unwrap() {
        MailDnsPlan::PowerDns { rrsets, .. } => {
            assert_eq!(rrsets.len(), 5);
            assert!(rrsets.iter().all(|r| r.content.is_none()));
        }
        _ => panic!("expected a PowerDNS plan"),
    }
    assert!(matches!(plan_mail_dns_cleanup("mail.example.com", "dk", Some(&p), false), Ok(MailDnsPlan::Nothing)));
}

#[test]
fn cloudflare_cleanup_names() {
    let z = zone("cloudflare", Some("zid"), Some("tok"));
    match plan_mail_dns_cleanup("mail.example.com", "mail", Some(&z), false).unwrap() {
        MailDnsPlan::Cloudflare { names, records, .. } => {
            assert!(records.is_empty());
            assert_eq!(names, vec!["mail.example.com", "_dmarc.mail.example.com", "mail._domainkey.mail.example.com"]);
        }
        _ => panic!("expected a Cloudflare plan"),
    }
}

#[test]
fn pdns_settings_and_fqdn() {
    let rows = vec![
        ("pdns_api_url".to_string(), "http://127.0.0.1:8081".to_string()),
        ("pdns_api_key".to_string(), "enc".to_string()),
    ];
    assert_eq!(pdns_config(&rows), Some(("http://127.0.0.1:8081".to_string(), "enc".to_string())));
    assert_eq!(pdns_config(&rows[..1].to_vec()), None);
    assert_eq!(fqdn("example.com"), "example.com.");
    assert_eq!(fqdn("example.com."), "example.com.");
    assert_eq!(mail_ssl_body("a@b.c").fields.len(), 2);
}
