use argon2::PasswordVerifier;
use arcpanel::incidents::{component_status, overall_status};
use arcpanel::secrets::{mask_value, next_version};
use arcpanel::teams::{
    check_member_change, check_member_removal, invite_token, invite_url, plan_invite, plan_team,
    CreateTeam, InviteRequest, TeamError, UpdateRole,
};
use arcpanel::users::{
    check_delete_user, check_new_user, plan_user, toggle_suspend_plan, CreateUserRequest, UserError,
};

#[test]
fn suspend_then_unsuspend_restores_role() {
    for role in ["admin", "reseller", "user"] {
        let s = toggle_suspend_plan(false, role, &None).unwrap();
        assert_eq!(s.new_role, "suspended");
        assert_eq!(s.park_role.as_deref(), Some(role));
        assert_eq!(s.action, "user.suspend");
        let u = toggle_suspend_plan(false, &s.new_role, &s.park_role).unwrap();
        assert_eq!(u.new_role, role);
        assert_eq!(u.action, "user.unsuspend");
        assert!(u.park_role.is_none());
    }
}

#[test]
fn unsuspend_without_known_role_gives_user() {
    assert_eq!(toggle_suspend_plan(false, "suspended", &None).unwrap().new_role, "user");
    assert_eq!(toggle_suspend_plan(false, "suspended", &Some("root".into())).unwrap().new_role, "user");
    assert_eq!(toggle_suspend_plan(true, "admin", &None).err(), Some(UserError::CannotSuspendSelf));
    assert_eq!(check_delete_user(true), Err(UserError::CannotDeleteSelf));
    assert!(check_delete_user(false).is_ok());
}

#[test]
fn new_user_checks() {
    let mk = |e: &str, p: &str, r: Option<&str>| CreateUserRequest {
        email: e.into(),
        password: p.into(),
        role: r.map(|s| s.to_string()),
    };
    assert_eq!(check_new_user(&mk("a@b.c", "longenough", None)).unwrap(), "user");
    assert_eq!(check_new_user(&mk("abc", "longenough", None)).unwrap_err(), UserError::InvalidEmail);
    assert_eq!(check_new_user(&mk("a@b.c", "short", None)).unwrap_err(), UserError::PasswordTooShort);
    assert_eq!(check_new_user(&mk("a@b.c", "longenough", Some("god"))).unwrap_err(), UserError::InvalidRole);
    let u = plan_user(&mk("a@b.c", "longenough", Some("admin"))).unwrap();
    assert_eq!(u.role, "admin");
    assert!(u.password_hash.starts_with("$argon2id$v=19$m=19456,t=2,p=1$"));
    assert_ne!(u.password_hash, "longenough");
    let parsed = argon2::PasswordHash::new(&u.password_hash).unwrap();
    assert!(argon2::Argon2::default().verify_password(b"longenough", &parsed).is_ok());
    assert!(argon2::Argon2::default().verify_password(b"otherpassword", &parsed).is_err());
}

#[test]
fn owner_is_kept() {
    let r = UpdateRole { role: "viewer".into() };
    for caller in ["owner", "admin", "viewer"] {
        assert!(check_member_change(caller, &r, &Some("owner".into())).is_err());
        assert!(check_member_removal(caller, &Some("owner".into())).is_err());
    }
    assert_eq!(check_member_change("admin", &r, &Some("owner".into())), Err(TeamError::CannotChangeOwner));
    assert_eq!(check_member_removal("owner", &Some("owner".into())), Err(TeamError::CannotRemoveOwner));
    assert_eq!(check_member_change("viewer", &r, &Some("developer".into())), Err(TeamError::InsufficientPermissions));
    assert!(check_member_change("admin", &r, &Some("developer".into())).is_ok());
    assert_eq!(check_member_removal("admin", &None), Err(TeamError::MemberNotFound));
}

#[test]
fn team_and_invites() {
    assert_eq!(plan_team(&CreateTeam { name: "  Ops  ".into() }, 0).unwrap(), "Ops");
    assert_eq!(plan_team(&CreateTeam { name: "   ".into() }, 0), Err(TeamError::InvalidName));
    assert_eq!(plan_team(&CreateTeam { name: "Ops".into() }, 10), Err(TeamError::TeamLimit));
    let inv = InviteRequest { email: "  Bob@Example.COM ".into(), role: None };
    assert_eq!(plan_invite("owner", &inv).unwrap(), ("bob@example.com".to_string(), "viewer".to_string()));
    assert_eq!(plan_invite("viewer", &inv), Err(TeamError::CannotInvite));
    let bad = InviteRequest { email: "bob".into(), role: None };
    assert_eq!(plan_invite("admin", &bad), Err(TeamError::InvalidEmail));
    let badrole = InviteRequest { email: "b@c.d".into(), role: Some("owner".into()) };
    assert_eq!(plan_invite("admin", &badrole), Err(TeamError::InvalidRole));
    let t = invite_token();
    assert_eq!(t.len(), 64);
    assert!(t.chars().all(|c| c.is_ascii_hexdigit()));
    assert_ne!(t, invite_token());
    assert!(invite_url("https://p.example", &t).ends_with(&t));
}

#[test]
fn status_page_rollup() {
    assert_eq!(component_status(&None, &vec![]), "operational");
    assert_eq!(component_status(&None, &vec!["up".into(), "up".into()]), "operational");
    assert_eq!(component_status(&None, &vec!["up".into(), "down".into()]), "major_outage");
    assert_eq!(component_status(&None, &vec!["up".into(), "pending".into()]), "degraded");
    assert_eq!(component_status(&Some("maintenance".into()), &vec!["down".into()]), "maintenance");
    assert_eq!(overall_status(&vec!["operational".into()]), "operational");
    assert_eq!(overall_status(&vec!["operational".into(), "major_outage".into()]), "major_outage");
    assert_eq!(overall_status(&vec!["degraded".into()]), "degraded");
    assert_eq!(overall_status(&vec![]), "operational");
}

#[test]
fn secret_masking() {
    assert_eq!(mask_value("abc"), "••••••••");
    assert_eq!(mask_value("abcd"), "••••••••");
    assert_eq!(mask_value("abcdefgh"), "abcd••••••••");
    assert_eq!(mask_value("héllo"), "hél••••••••");
    assert_eq!(next_version(3), 4);
}
