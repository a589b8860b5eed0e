use arcpanel::domain::{extract_parent_domain, is_valid_domain};
use arcpanel::mail::{
    alias_address, blacklist_query, crypt_with_salt, dkim_txt, mail_dns_records,
    normalize_mail_domain, reversed_ip, sha512_crypt, stored_password, MailError,
};
use arcpanel::sboms::{sanitize_filename, sbom_download_name};
use arcpanel::site_settings::{default_301, free_redis_db, health_score};
use arcpanel::system_logs::parse_since;
use arcpanel::php::default_method;

#[test]
fn parent_domains() {
    assert_eq!(extract_parent_domain("mail.example.com"), "example.com");
    assert_eq!(extract_parent_domain("example.com"), "example.com");
    assert_eq!(extract_parent_domain("a.b.example.co"), "example.co");
    assert!(is_valid_domain("example.com"));
    assert!(is_valid_domain("sub-1.example.com"));
    assert!(!is_valid_domain("-bad.example.com"));
    assert!(!is_valid_domain("exa mple.com"));
    assert!(!is_valid_domain(""));
}

#[test]
fn mail_domains_and_addresses() {
    assert_eq!(normalize_mail_domain("  Example.COM ").unwrap(), "example.com");
    assert_eq!(normalize_mail_domain("not a domain").unwrap_err(), MailError::InvalidDomain);
    assert_eq!(alias_address(" Info@Example.com "), "info@example.com");
}

#[test]
fn crypt_hash_format() {
    assert_eq!(
        crypt_with_salt("saltstring", "Hello world!"),
        "$6$saltstring$svn8UoSVapNtMuq1ukKS4tPQd8iKwSMHWjl/O817G3uBnIFNjnQJuesI68u4OTLiBFdcbYEdFCoEOfaS35inz1"
    );
    let r = sha512_crypt("secret");
    assert!(r.starts_with("$6$"));
    assert_eq!(r.len(), 3 + 16 + 1 + 86);
    assert_eq!(crypt_with_salt(&r[3..19], "secret"), r);
    assert_ne!(crypt_with_salt(&r[3..19], "Secret"), r);
    assert_ne!(sha512_crypt("secret"), r);
    assert!(stored_password("x").starts_with("{SHA512-CRYPT}$6$"));
}

#[test]
fn dkim_and_records() {
    assert_eq!(dkim_txt("-----BEGIN PUBLIC KEY-----\nAB\nCD\n-----END PUBLIC KEY-----"), "v=DKIM1; k=rsa; p=ABCD");
    let recs = mail_dns_records("example.com", "mail", &None, &None);
    assert_eq!(recs.len(), 4);
    assert_eq!(recs[0].content, "10 mail.example.com");
    assert_eq!(recs[1].content, "your-server-ip");
    let recs = mail_dns_records("example.com", "s1", &Some("K".into()), &Some("1.2.3.4".into()));
    assert_eq!(recs.len(), 5);
    assert_eq!(recs[2].content, "v=spf1 a mx ip4:1.2.3.4 ~all");
    assert_eq!(recs[4].name, "s1._domainkey.example.com");
}

#[test]
fn blacklist_names() {
    assert_eq!(reversed_ip("1.2.3.4"), "4.3.2.1");
    assert_eq!(blacklist_query(&reversed_ip("10.0.0.1"), "zen.spamhaus.org"), "1.0.0.10.zen.spamhaus.org");
}

#[test]
fn download_names() {
    assert_eq!(sanitize_filename("my app/../x\n"), "my_app_.._x_");
    let (file, header) = sbom_download_name("web:1");
    assert_eq!(file, "web_1.spdx.json");
    assert_eq!(header, "attachment; filename=\"web_1.spdx.json\"");
}

#[test]
fn small_defaults() {
    assert_eq!(parse_since("1h"), Some("1 hour"));
    assert_eq!(parse_since("30d"), Some("30 days"));
    assert_eq!(parse_since("2h"), None);
    assert_eq!(default_301(), "301");
    assert_eq!(default_method(), "native");
}

#[test]
fn redis_slots() {
    assert_eq!(free_redis_db(&vec![]), Some(1));
    assert_eq!(free_redis_db(&vec![1, 2, 4]), Some(3));
    assert_eq!(free_redis_db(&(1..=15).collect()), None);
}

#[test]
fn health_scores() {
    assert_eq!(health_score(true, Some(90), Some(1), &Some("up".into()), Some(100), true), 100);
    assert_eq!(health_score(false, None, None, &None, None, false), 40);
    assert_eq!(health_score(true, Some(3), Some(30), &Some("down".into()), Some(6000), true), 40);
    assert_eq!(health_score(true, Some(-1), Some(50), &Some("down".into()), Some(6000), false), 15);
}
