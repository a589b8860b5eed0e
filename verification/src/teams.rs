//! Teams: who may invite, change and remove members, and what a team and
//! an invitation must look like.

use vstd::prelude::*;

use crate::text::utf8_len;

use crate::crypto::uuid_v4_simple;
use crate::text::{chars_of, concat2, has_char, is_ascii_hex, normalize, normalized, str_eq, trim_str, trimmed};

verus! {

/// A request to create a team.
pub struct CreateTeam {
    pub name: String,
}

/// A request to invite someone to a team.
pub struct InviteRequest {
    pub email: String,
    pub role: Option<String>,
}

/// The token of an accepted invitation.
pub struct AcceptInvite {
    pub token: String,
}

/// A member's new role.
pub struct UpdateRole {
    pub role: String,
}

/// The roles a team member can be given.
pub open spec fn is_member_role(r: Seq<char>) -> bool {
    r == "admin"@ || r == "developer"@ || r == "viewer"@
}

fn member_role_ok(r: &str) -> (b: bool)
    ensures
        b == is_member_role(r@),
{
    str_eq(r, "admin") || str_eq(r, "developer") || str_eq(r, "viewer")
}

/// The members who manage a team.
pub open spec fn is_manager(r: Seq<char>) -> bool {
    r == "owner"@ || r == "admin"@
}

/// Why a team request is refused.
#[derive(Debug, Clone, Copy, PartialEq, Eq, Structural)]
pub enum TeamError {
    InvalidName,
    TeamLimit,
    NotAMember,
    CannotInvite,
    InvalidEmail,
    InvalidRole,
    InsufficientPermissions,
    MemberNotFound,
    CannotChangeOwner,
    CannotRemoveOwner,
}

impl TeamError {
    pub fn status(&self) -> (s: u16)
        ensures
            s == match self {
                TeamError::InvalidName | TeamError::TeamLimit | TeamError::InvalidEmail | TeamError::InvalidRole => 400u16,
                TeamError::MemberNotFound => 404u16,
                _ => 403u16,
            },
    {
        match self {
            TeamError::InvalidName | TeamError::TeamLimit | TeamError::InvalidEmail | TeamError::InvalidRole => 400,
            TeamError::MemberNotFound => 404,
            _ => 403,
        }
    }

    pub fn message(&self) -> (m: &'static str)
        ensures
            m@ == match self {
                TeamError::InvalidName => "Name must be 1-100 characters"@,
                TeamError::TeamLimit => "Team limit reached (10)"@,
                TeamError::NotAMember => "Not a member of this team"@,
                TeamError::CannotInvite => "Only owners and admins can invite members"@,
                TeamError::InvalidEmail => "Valid email required"@,
                TeamError::InvalidRole => "Role must be admin, developer, or viewer"@,
                TeamError::InsufficientPermissions => "Insufficient permissions"@,
                TeamError::MemberNotFound => "Member not found"@,
                TeamError::CannotChangeOwner => "Cannot change owner's role"@,
                TeamError::CannotRemoveOwner => "Cannot remove the team owner"@,
            },
    {
        match self {
            TeamError::InvalidName => "Name must be 1-100 characters",
            TeamError::TeamLimit => "Team limit reached (10)",
            TeamError::NotAMember => "Not a member of this team",
            TeamError::CannotInvite => "Only owners and admins can invite members",
            TeamError::InvalidEmail => "Valid email required",
            TeamError::InvalidRole => "Role must be admin, developer, or viewer",
            TeamError::InsufficientPermissions => "Insufficient permissions",
            TeamError::MemberNotFound => "Member not found",
            TeamError::CannotChangeOwner => "Cannot change owner's role",
            TeamError::CannotRemoveOwner => "Cannot remove the team owner",
        }
    }
}

/// A new team's name: trimmed, 1 to 100 bytes; and an owner has at most
/// 10 teams.
pub fn plan_team(req: &CreateTeam, owned: i64) -> (r: Result<String, TeamError>)
    ensures
        (trimmed(req.name@).len() == 0 || utf8_len(trimmed(req.name@)) > 100)
            ==> r == Err::<String, TeamError>(TeamError::InvalidName),
        !(trimmed(req.name@).len() == 0 || utf8_len(trimmed(req.name@)) > 100) && owned >= 10
            ==> r == Err::<String, TeamError>(TeamError::TeamLimit),
        !(trimmed(req.name@).len() == 0 || utf8_len(trimmed(req.name@)) > 100) && owned < 10
            ==> (r matches Ok(n) && n@ == trimmed(req.name@)),
{
    let name = trim_str(req.name.as_str());
    if chars_of(name.as_str()).len() == 0 || name.as_str().as_bytes().len() > 100 {
        return Err(TeamError::InvalidName);
    }
    if owned >= 10 {
        return Err(TeamError::TeamLimit);
    }
    Ok(name)
}

/// The caller's role in a team, which it must have.
pub fn member_role(row: Option<String>) -> (r: Result<String, TeamError>)
    ensures
        match row {
            Some(x) => r matches Ok(y) && y@ == x@,
            None => r == Err::<String, TeamError>(TeamError::NotAMember),
        },
{
    match row {
        Some(x) => Ok(x),
        None => Err(TeamError::NotAMember),
    }
}

/// The checks on an invitation, in order: the caller manages the team;
/// the address, trimmed and lower-cased, is non-empty with an `@`; the
/// role (default `viewer`) is one a member can be given. The result is
/// the address and the role.
pub open spec fn invite_check(caller_role: Seq<char>, req: InviteRequest) -> Result<(Seq<char>, Seq<char>), TeamError> {
    let email = normalized(req.email@);
    let role = match req.role { Some(r) => r@, None => "viewer"@ };
    if !is_manager(caller_role) {
        Err(TeamError::CannotInvite)
    } else if email.len() == 0 || !email.contains('@') {
        Err(TeamError::InvalidEmail)
    } else if !is_member_role(role) {
        Err(TeamError::InvalidRole)
    } else {
        Ok((email, role))
    }
}

pub fn plan_invite(caller_role: &str, req: &InviteRequest) -> (r: Result<(String, String), TeamError>)
    ensures
        match r {
            Ok((e, ro)) => invite_check(caller_role@, *req) == Ok::<(Seq<char>, Seq<char>), TeamError>((e@, ro@)),
            Err(x) => invite_check(caller_role@, *req) == Err::<(Seq<char>, Seq<char>), TeamError>(x),
        },
{
    if !(str_eq(caller_role, "owner") || str_eq(caller_role, "admin")) {
        return Err(TeamError::CannotInvite);
    }
    let email = normalize(req.email.as_str());
    let ec = chars_of(email.as_str());
    if ec.len() == 0 || !has_char(ec.as_slice(), '@') {
        return Err(TeamError::InvalidEmail);
    }
    let role = match &req.role {
        Some(r) => String::from_str(r.as_str()),
        None => String::from_str("viewer"),
    };
    if !member_role_ok(role.as_str()) {
        return Err(TeamError::InvalidRole);
    }
    Ok((email, role))
}

/// A fresh invitation token: two random UUIDs as 64 hex digits.
pub fn invite_token() -> (t: String)
    ensures
        t@.len() == 64,
        forall|i: int| 0 <= i < 64 ==> is_ascii_hex(#[trigger] t@[i]),
{
    let a = uuid_v4_simple();
    let b = uuid_v4_simple();
    let t = concat2(a.as_str(), b.as_str());
    assert forall|i: int| 0 <= i < 64 implies is_ascii_hex(#[trigger] t@[i]) by {
        if i < 32 {
            assert(t@[i] == a@[i]);
        } else {
            assert(t@[i] == b@[i - 32]);
        }
    }
    t
}

/// The link an invitation mail carries.
pub fn invite_url(base_url: &str, token: &str) -> (u: String)
    ensures
        u@ == base_url@ + "/teams/accept?token="@ + token@,
{
    crate::text::concat3(base_url, "/teams/accept?token=", token)
}

/// The checks on changing a member's role, in order: the caller manages
/// the team, the role is one a member can be given, the member exists and
/// is not the owner.
pub open spec fn member_change_check(caller_role: Seq<char>, role: Seq<char>, target: Option<Seq<char>>) -> Result<(), TeamError> {
    if !is_manager(caller_role) {
        Err(TeamError::InsufficientPermissions)
    } else if !is_member_role(role) {
        Err(TeamError::InvalidRole)
    } else {
        match target {
            None => Err(TeamError::MemberNotFound),
            Some(t) => if t == "owner"@ { Err(TeamError::CannotChangeOwner) } else { Ok(()) },
        }
    }
}

pub fn check_member_change(caller_role: &str, req: &UpdateRole, target_role: &Option<String>) -> (r: Result<(), TeamError>)
    ensures
        r == member_change_check(caller_role@, req.role@, target_role.deep_view()),
{
    if !(str_eq(caller_role, "owner") || str_eq(caller_role, "admin")) {
        return Err(TeamError::InsufficientPermissions);
    }
    if !member_role_ok(req.role.as_str()) {
        return Err(TeamError::InvalidRole);
    }
    match target_role {
        None => Err(TeamError::MemberNotFound),
        Some(t) => if str_eq(t.as_str(), "owner") { Err(TeamError::CannotChangeOwner) } else { Ok(()) },
    }
}

/// The checks on removing a member: the caller manages the team, the
/// member exists and is not the owner.
pub open spec fn member_removal_check(caller_role: Seq<char>, target: Option<Seq<char>>) -> Result<(), TeamError> {
    if !is_manager(caller_role) {
        Err(TeamError::InsufficientPermissions)
    } else {
        match target {
            None => Err(TeamError::MemberNotFound),
            Some(t) => if t == "owner"@ { Err(TeamError::CannotRemoveOwner) } else { Ok(()) },
        }
    }
}

pub fn check_member_removal(caller_role: &str, target_role: &Option<String>) -> (r: Result<(), TeamError>)
    ensures
        r == member_removal_check(caller_role@, target_role.deep_view()),
{
    if !(str_eq(caller_role, "owner") || str_eq(caller_role, "admin")) {
        return Err(TeamError::InsufficientPermissions);
    }
    match target_role {
        None => Err(TeamError::MemberNotFound),
        Some(t) => if str_eq(t.as_str(), "owner") { Err(TeamError::CannotRemoveOwner) } else { Ok(()) },
    }
}

/// A team's owner keeps the owner role: no caller can change or remove
/// them.
pub proof fn law_owner_is_kept(caller_role: Seq<char>, role: Seq<char>)
    ensures
        member_change_check(caller_role, role, Some("owner"@)) is Err,
        member_removal_check(caller_role, Some("owner"@)) is Err,
{
}

/// Only a team's owner or an administrator of it can invite, and whoever
/// is invited gets a role below the owner's.
pub proof fn law_only_managers_invite(caller_role: Seq<char>, req: InviteRequest)
    requires
        invite_check(caller_role, req) is Ok,
    ensures
        is_manager(caller_role),
        is_member_role(invite_check(caller_role, req)->Ok_0.1),
        invite_check(caller_role, req)->Ok_0.1 != "owner"@,
{
    reveal_strlit("owner");
    reveal_strlit("admin");
    reveal_strlit("developer");
    reveal_strlit("viewer");
    assert("owner"@[0] != "admin"@[0] && "owner"@[0] != "developer"@[0] && "owner"@[0] != "viewer"@[0]);
}

} // verus!
