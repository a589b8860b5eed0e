use arcpanel::agent_body::JsonScalar;
use arcpanel::mail::{
    catch_all_value, check_account_email, mail_checks, passed_count, plan_account_update,
    plan_domain_update, plan_mail_account, dns_blacklists, CreateAccountRequest, MailError,
    UpdateAccountRequest, UpdateDomainRequest,
};
use arcpanel::prometheus::{prom_settings, read_settings};
use arcpanel::sboms::scanner_installed;
use arcpanel::scan_gate::{find_app_image, find_template_image};
use arcpanel::servers::{
    agent_version, check_removal, install_script, plan_server, replace_agent_token,
    updated_server, uptime_buckets, CreateServerRequest, ServerError,
};
use arcpanel::teams::{member_role, TeamError};
use arcpanel::users::{check_reset_password, plan_user_update, ResetPasswordRequest, UpdateUserRequest, UserError};

#[test]
fn servers() {
    let s = plan_server(&CreateServerRequest { name: " edge-1 ".into(), ip_address: Some(" 10.0.0.5 ".into()) }).unwrap();
    assert_eq!(s.name, "edge-1");
    assert_eq!(s.ip_address.as_deref(), Some("10.0.0.5"));
    assert_eq!(s.agent_url.as_deref(), Some("https://10.0.0.5:9443"));
    assert_eq!(s.agent_token.len(), 64);
    assert!(s.agent_token.chars().all(|c| c.is_ascii_hexdigit()));
    let s = plan_server(&CreateServerRequest { name: "x".into(), ip_address: Some("  ".into()) }).unwrap();
    assert!(s.ip_address.is_none() && s.agent_url.is_none());
    assert!(matches!(plan_server(&CreateServerRequest { name: " ".into(), ip_address: None }), Err(ServerError::InvalidName)));
    assert_eq!(
        install_script("https://p", "T", "S"),
        "curl -sSL https://p/install-agent.sh | sudo bash -s -- \\\n  --panel-url https://p \\\n  --token T \\\n  --server-id S"
    );
    assert_eq!(check_removal(true), Err(ServerError::LocalServer));
    assert!(check_removal(false).is_ok());
    let (n, ip, url) = updated_server("a", &Some("1.1.1.1".into()), &None, None, Some("2.2.2.2"), None);
    assert_eq!((n.as_str(), ip.as_deref(), url), ("a", Some("2.2.2.2"), None));
    assert_eq!(agent_version(None), "unknown");
    assert_eq!(
        replace_agent_token("A=1\r\nAGENT_TOKEN=old\nB=2\n", "new"),
        "A=1\nAGENT_TOKEN=new\nB=2"
    );
    assert_eq!(replace_agent_token("AGENT_TOKEN=x", "y"), "AGENT_TOKEN=y");
    let now = 600 * 1000 + 30;
    let u = uptime_buckets(&vec![1000, 999, 857, 5], now);
    assert_eq!(u.buckets.len(), 144);
    assert_eq!((u.window_hours, u.bucket_minutes), (24, 10));
    assert!(u.buckets[143] && u.buckets[142] && u.buckets[0]);
    assert!(!u.buckets[1]);
}

#[test]
fn mail_plans() {
    let u = plan_domain_update(&UpdateDomainRequest { catch_all: Some(String::new()), enabled: Some(true) }).unwrap();
    assert_eq!(u.catch_all, Some(None));
    assert_eq!(u.enabled, Some(true));
    assert!(matches!(plan_domain_update(&UpdateDomainRequest { catch_all: Some("nobody".into()), enabled: None }), Err(MailError::InvalidCatchAll)));
    assert_eq!(catch_all_value("all@x.com").unwrap().as_deref(), Some("all@x.com"));
    assert!(matches!(catch_all_value("a@x.com|cat"), Err(MailError::InvalidCatchAll)));
    assert_eq!(check_account_email(" Bob@X.com ", "x.com").unwrap(), "bob@x.com");
    assert!(matches!(check_account_email("bob@y.com", "x.com"), Err(MailError::EmailDomainMismatch)));
    let a = plan_mail_account(&CreateAccountRequest { email: "bob@x.com".into(), password: "longpassword".into(), display_name: None, quota_mb: None }, "x.com").unwrap();
    assert_eq!(a.quota_mb, 1024);
    assert!(a.password_hash.starts_with("{SHA512-CRYPT}$6$"));
    assert!(matches!(plan_mail_account(&CreateAccountRequest { email: "bob@x.com".into(), password: "short".into(), display_name: None, quota_mb: None }, "x.com"), Err(MailError::PasswordTooShort)));
    assert_eq!(MailError::EmailDomainMismatch.message("x.com").contains("x.com"), true);
}

#[test]
fn mailbox_updates() {
    let req = UpdateAccountRequest {
        password: None, display_name: Some("Bob".into()), quota_mb: Some(10), enabled: None,
        forward_to: Some("bad".into()), autoresponder_enabled: Some(true), autoresponder_subject: None,
        autoresponder_body: None,
    };
    let u = plan_account_update(&req);
    assert_eq!(u.error, Some(MailError::InvalidForward));
    assert_eq!(u.changes.fields.len(), 2);
    let req = UpdateAccountRequest { forward_to: Some("fw@y.com".into()), ..req };
    let u = plan_account_update(&req);
    assert_eq!(u.error, None);
    let keys: Vec<&str> = u.changes.fields.iter().map(|(k, _)| k.as_str()).collect();
    assert_eq!(keys, vec!["display_name", "quota_mb", "forward_to", "autoresponder_enabled"]);
    let short = UpdateAccountRequest {
        password: Some("x".into()), display_name: Some("Bob".into()), quota_mb: None, enabled: None,
        forward_to: None, autoresponder_enabled: None, autoresponder_subject: None, autoresponder_body: None,
    };
    let u = plan_account_update(&short);
    assert_eq!(u.error, Some(MailError::PasswordTooShort));
    assert!(u.changes.fields.is_empty());
    let pw = UpdateAccountRequest { password: Some("longenough".into()), ..short };
    let u = plan_account_update(&pw);
    assert!(matches!(&u.changes.fields[0].1, JsonScalar::Str(h) if h.starts_with("{SHA512-CRYPT}$6$")));
}

#[test]
fn mail_record_checks() {
    let c = mail_checks("x.com", &None, " 10 mail.x.com. \n", "junk\n\"v=spf1 a mx -all\"\n", "", "\"v=DMARC1; p=none\"");
    assert_eq!(c.len(), 4);
    assert!(c[0].pass);
    assert_eq!(c[0].value, "10 mail.x.com.");
    assert_eq!(c[1].value, "\"v=spf1 a mx -all\"");
    assert!(!c[2].pass);
    assert_eq!(c[2].value, "Not found");
    assert_eq!(c[2].host.as_deref(), Some("arcpanel._domainkey.x.com"));
    assert!(c[3].pass);
    assert_eq!(passed_count(&c), 3);
    let long = format!("v=DKIM1; p={}", "A".repeat(200));
    let c = mail_checks("x.com", &Some("s".into()), "", "", &long, "");
    assert_eq!(c[2].value.chars().count(), 100);
    assert_eq!(dns_blacklists()[0], ("zen.spamhaus.org", "Spamhaus"));
    assert_eq!(dns_blacklists().len(), 8);
}

#[test]
fn small_readers() {
    let rows = vec![
        ("prometheus_enabled".to_string(), "true".to_string()),
        ("prometheus_token_hash".to_string(), "h1".to_string()),
        ("prometheus_token_hash".to_string(), "h2".to_string()),
    ];
    assert_eq!(read_settings(&rows), (true, Some("h2".to_string())));
    assert_eq!(read_settings(&vec![]), (false, None));
    let s = prom_settings(true, &Some(String::new()), Some(String::new()));
    assert!(s.enabled && !s.token_configured && s.token_prefix.is_none());
    assert!(scanner_installed(Some(true)).installed);
    assert!(!scanner_installed(None).installed);
    let ts = vec![(Some("a".to_string()), Some("img:a".to_string())), (Some("b".to_string()), None), (Some("a".to_string()), Some("img:a2".to_string()))];
    assert_eq!(find_template_image(&ts, "a").as_deref(), Some("img:a"));
    assert_eq!(find_template_image(&ts, "b"), None);
    assert_eq!(find_template_image(&ts, "z"), None);
    let apps = vec![(None, Some("x".to_string())), (Some("web".to_string()), Some("nginx:1".to_string()))];
    assert_eq!(find_app_image(&apps, "web").as_deref(), Some("nginx:1"));
    assert_eq!(find_app_image(&apps, "").as_deref(), Some("x"));
    assert_eq!(member_role(Some("admin".into())).unwrap(), "admin");
    assert_eq!(member_role(None), Err(TeamError::NotAMember));
    let (r, p, e) = plan_user_update(&UpdateUserRequest { role: Some("admin".into()), password: Some("short".into()) });
    assert_eq!((r.as_deref(), p, e), (Some("admin"), None, Some(UserError::PasswordTooShort)));
    let (r, p, e) = plan_user_update(&UpdateUserRequest { role: Some("root".into()), password: Some("longenough".into()) });
    assert_eq!((r, p, e), (None, None, Some(UserError::InvalidRole)));
    assert_eq!(check_reset_password(&ResetPasswordRequest { password: "x".repeat(129) }), Err(UserError::PasswordTooLong));
    assert!(check_reset_password(&ResetPasswordRequest { password: "x".repeat(8) }).is_ok());
}
