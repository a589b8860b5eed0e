use arcpanel::agent_body::JsonScalar;
use arcpanel::mail_dns::MailZone;
use arcpanel::site_provision::{
    after_site_config, after_site_teardown, ConfigOutcome, RemovalStep,
    cf_ids_to_delete, firewall_rules_to_remove, redis_purge_body, site_dns_cleanup, FirewallRuleInfo,
    SiteDnsCleanup,
};

fn rule(port: Option<&str>, action: Option<&str>, number: Option<u64>) -> FirewallRuleInfo {
    FirewallRuleInfo { port: port.map(|s| s.to_string()), action: action.map(|s| s.to_string()), number }
}

#[test]
fn firewall_rules_for_the_removed_port() {
    let rules = vec![
        rule(Some("5001/tcp"), Some("DENY IN"), Some(3)),
        rule(Some("5001/udp"), Some("deny"), Some(4)),
        rule(Some("5001/tcp"), Some("allow"), Some(5)),
        rule(Some("50010/tcp"), Some("deny"), Some(6)),
        rule(Some("5001/tcp"), Some("deny"), None),
        rule(None, Some("deny"), Some(7)),
        rule(Some("5001/tcp"), Some("Deny"), Some(9)),
    ];
    assert_eq!(firewall_rules_to_remove(&rules, 5001), vec![3, 9]);
    assert_eq!(firewall_rules_to_remove(&rules, 80), Vec::<u64>::new());
    assert_eq!(firewall_rules_to_remove(&Vec::new(), 5001), Vec::<u64>::new());
}

#[test]
fn redis_purge_names_the_database() {
    let b = redis_purge_body(7);
    assert_eq!(b.fields.len(), 1);
    assert_eq!(b.fields[0].0, "redis_db");
    assert!(matches!(b.fields[0].1, JsonScalar::Int(7)));
}

#[test]
fn cloudflare_records_pointing_here_are_deleted() {
    let records = vec![
        (Some("a".to_string()), Some("1.2.3.4".to_string())),
        (Some("b".to_string()), Some("5.6.7.8".to_string())),
        (None, Some("1.2.3.4".to_string())),
        (Some("c".to_string()), None),
        (Some("d".to_string()), Some("1.2.3.4".to_string())),
    ];
    assert_eq!(cf_ids_to_delete(&records, "1.2.3.4"), vec!["a".to_string(), "d".to_string()]);
    assert!(cf_ids_to_delete(&records, "9.9.9.9").is_empty());
}

#[test]
fn dns_cleanup_follows_the_zone_provider() {
    let cf = MailZone { provider: "cloudflare".into(), cf_zone_id: Some("z".into()), cf_api_token: Some("t".into()) };
    match site_dns_cleanup("blog.example.com", Some(&cf), false) {
        SiteDnsCleanup::Cloudflare { zone_id, token, name } => {
            assert_eq!(zone_id, "z");
            assert_eq!(token, "t");
            assert_eq!(name, "blog.example.com");
        }
        _ => panic!("expected a Cloudflare clean-up"),
    }
    let cf_no_token = MailZone { provider: "cloudflare".into(), cf_zone_id: Some("z".into()), cf_api_token: None };
    assert!(matches!(site_dns_cleanup("blog.example.com", Some(&cf_no_token), true), SiteDnsCleanup::Nothing));
    let pd = MailZone { provider: "powerdns".into(), cf_zone_id: None, cf_api_token: None };
    match site_dns_cleanup("a.b.example.com", Some(&pd), true) {
        SiteDnsCleanup::PowerDns { zone_fqdn, name } => {
            assert_eq!(zone_fqdn, "b.example.com.");
            assert_eq!(name, "a.b.example.com.");
        }
        _ => panic!("expected a PowerDNS clean-up"),
    }
    assert!(matches!(site_dns_cleanup("a.example.com", Some(&pd), false), SiteDnsCleanup::Nothing));
    assert!(matches!(site_dns_cleanup("a.example.com", None, true), SiteDnsCleanup::Nothing));
}

#[test]
fn creation_commits_or_rolls_back() {
    match after_site_config(Ok(())) {
        ConfigOutcome::Commit { step } => {
            assert_eq!((step.step.as_str(), step.status.as_str()), ("nginx", "done"));
        }
        _ => panic!("expected a commit"),
    }
    match after_site_config(Err("timeout".to_string())) {
        ConfigOutcome::RollBack { steps, forget_after_secs, context } => {
            assert_eq!(steps.len(), 2);
            assert_eq!(steps[0].message.as_deref(), Some("Agent error: timeout"));
            assert_eq!(steps[1].label, "Provisioning failed");
            assert_eq!(forget_after_secs, 30);
            assert_eq!(context, "Site configuration");
        }
        _ => panic!("expected a rollback"),
    }
}

#[test]
fn removal_keeps_records_when_the_agent_fails() {
    assert!(matches!(after_site_teardown(true), RemovalStep::DeleteRecords));
    assert!(matches!(after_site_teardown(false), RemovalStep::Stop { context: "Site removal" }));
}
