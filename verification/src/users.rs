//! Panel accounts: what a new account or a change to one must satisfy,
//! and suspension, which parks an account's role and gives it back.

use vstd::prelude::*;

use crate::text::utf8_len;

use crate::crypto::{argon2_default_prefix, argon2_hash, argon2_verifies};
use crate::text::{chars_of, has_char, str_eq};

verus! {

/// A request to create an account.
pub struct CreateUserRequest {
    pub email: String,
    pub password: String,
    pub role: Option<String>,
}

/// A change to an account's role or password.
pub struct UpdateUserRequest {
    pub role: Option<String>,
    pub password: Option<String>,
}

/// A new password set by an administrator.
pub struct ResetPasswordRequest {
    pub password: String,
}

/// The roles an account can have, besides being suspended.
pub open spec fn is_role(r: Seq<char>) -> bool {
    r == "admin"@ || r == "reseller"@ || r == "user"@
}

pub fn role_ok(r: &str) -> (b: bool)
    ensures
        b == is_role(r@),
{
    str_eq(r, "admin") || str_eq(r, "reseller") || str_eq(r, "user")
}

/// Why an account request is refused.
#[derive(Debug, Clone, Copy, PartialEq, Eq, Structural)]
pub enum UserError {
    InvalidEmail,
    PasswordTooShort,
    PasswordTooLong,
    InvalidRole,
    CannotSuspendSelf,
    CannotDeleteSelf,
    HashFailed,
}

impl UserError {
    pub fn status(&self) -> (s: u16)
        ensures
            s == match self {
                UserError::HashFailed => 500u16,
                _ => 400u16,
            },
    {
        match self {
            UserError::HashFailed => 500,
            _ => 400,
        }
    }

    pub fn message(&self) -> (m: &'static str)
        ensures
            m@ == match self {
                UserError::InvalidEmail => "Invalid email"@,
                UserError::PasswordTooShort => "Password must be at least 8 characters"@,
                UserError::PasswordTooLong => "Password must be at most 128 characters"@,
                UserError::InvalidRole => "Role must be admin, reseller, or user"@,
                UserError::CannotSuspendSelf => "Cannot suspend your own account"@,
                UserError::CannotDeleteSelf => "Cannot delete your own account"@,
                UserError::HashFailed => "Internal server error"@,
            },
    {
        match self {
            UserError::InvalidEmail => "Invalid email",
            UserError::PasswordTooShort => "Password must be at least 8 characters",
            UserError::PasswordTooLong => "Password must be at most 128 characters",
            UserError::InvalidRole => "Role must be admin, reseller, or user",
            UserError::CannotSuspendSelf => "Cannot suspend your own account",
            UserError::CannotDeleteSelf => "Cannot delete your own account",
            UserError::HashFailed => "Internal server error",
        }
    }
}

/// The checks on a new account, in order: an address of 1 to 254 bytes
/// with an `@`, a password of at least 8 bytes, a known role (default
/// `user`). The result is the role.
pub open spec fn new_user_check(req: CreateUserRequest) -> Result<Seq<char>, UserError> {
    let role = match req.role { Some(r) => r@, None => "user"@ };
    if req.email@.len() == 0 || utf8_len(req.email@) > 254 || !req.email@.contains('@') {
        Err(UserError::InvalidEmail)
    } else if utf8_len(req.password@) < 8 {
        Err(UserError::PasswordTooShort)
    } else if !is_role(role) {
        Err(UserError::InvalidRole)
    } else {
        Ok(role)
    }
}

pub fn check_new_user(req: &CreateUserRequest) -> (r: Result<String, UserError>)
    ensures
        match r {
            Ok(role) => new_user_check(*req) == Ok::<Seq<char>, UserError>(role@),
            Err(e) => new_user_check(*req) == Err::<Seq<char>, UserError>(e),
        },
{
    let ec = chars_of(req.email.as_str());
    if ec.len() == 0 || req.email.as_str().as_bytes().len() > 254 || !has_char(ec.as_slice(), '@') {
        return Err(UserError::InvalidEmail);
    }
    if req.password.as_str().as_bytes().len() < 8 {
        return Err(UserError::PasswordTooShort);
    }
    let role = match &req.role {
        Some(r) => String::from_str(r.as_str()),
        None => String::from_str("user"),
    };
    if !role_ok(role.as_str()) {
        return Err(UserError::InvalidRole);
    }
    Ok(role)
}

/// A new account ready to be stored.
pub struct NewUser {
    pub email: String,
    pub password_hash: String,
    pub role: String,
}

/// Checks a new account and hashes its password with Argon2id.
pub fn plan_user(req: &CreateUserRequest) -> (r: Result<NewUser, UserError>)
    ensures
        new_user_check(*req) matches Err(e) ==> r == Err::<NewUser, UserError>(e),
        new_user_check(*req) matches Ok(role) ==> match r {
            Ok(u) => u.email@ == req.email@ && u.role@ == role
                && crate::text::has_prefix(u.password_hash@, argon2_default_prefix())
                && argon2_verifies(u.password_hash@, vstd::utf8::encode_utf8(req.password@)),
            Err(e) => e == UserError::HashFailed,
        },
{
    let role = match check_new_user(req) {
        Ok(role) => role,
        Err(e) => return Err(e),
    };
    match argon2_hash(req.password.as_str().as_bytes()) {
        Some(h) => Ok(NewUser { email: String::from_str(req.email.as_str()), password_hash: h, role }),
        None => Err(UserError::HashFailed),
    }
}

/// A change to an account as it is applied: the role is set first (and
/// the account's sessions are dropped), then the password is checked; a
/// bad role refuses everything, a short password stops after the role.
pub open spec fn user_update_of(req: UpdateUserRequest) -> (Option<Seq<char>>, Option<Seq<char>>, Option<UserError>) {
    if req.role matches Some(r) && !is_role(r@) {
        (None, None, Some(UserError::InvalidRole))
    } else {
        let role = match req.role { Some(r) => Some(r@), None => None };
        match req.password {
            Some(p) => if utf8_len(p@) < 8 {
                (role, None, Some(UserError::PasswordTooShort))
            } else {
                (role, Some(p@), None)
            },
            None => (role, None, None),
        }
    }
}

/// Works out a change to an account: the role to set, the password to
/// hash, and the error it stops at.
pub fn plan_user_update(req: &UpdateUserRequest) -> (r: (Option<String>, Option<String>, Option<UserError>))
    ensures
        (r.0.deep_view(), r.1.deep_view(), r.2) == user_update_of(*req),
{
    let role = match &req.role {
        Some(ro) => {
            if !role_ok(ro.as_str()) {
                return (None, None, Some(UserError::InvalidRole));
            }
            Some(String::from_str(ro.as_str()))
        },
        None => None,
    };
    match &req.password {
        Some(p) => {
            if p.as_str().as_bytes().len() < 8 {
                (role, None, Some(UserError::PasswordTooShort))
            } else {
                (role, Some(String::from_str(p.as_str())), None)
            }
        },
        None => (role, None, None),
    }
}

/// A password set by an administrator is 8 to 128 bytes.
pub fn check_reset_password(req: &ResetPasswordRequest) -> (r: Result<(), UserError>)
    ensures
        utf8_len(req.password@) < 8 ==> r == Err::<(), UserError>(UserError::PasswordTooShort),
        8 <= utf8_len(req.password@) <= 128 ==> r is Ok,
        utf8_len(req.password@) > 128 ==> r == Err::<(), UserError>(UserError::PasswordTooLong),
{
    let n = req.password.as_str().as_bytes().len();
    if n < 8 {
        Err(UserError::PasswordTooShort)
    } else if n > 128 {
        Err(UserError::PasswordTooLong)
    } else {
        Ok(())
    }
}

/// An administrator cannot delete their own account.
pub fn check_delete_user(is_self: bool) -> (r: Result<(), UserError>)
    ensures
        r is Ok <==> !is_self,
        is_self ==> r == Err::<(), UserError>(UserError::CannotDeleteSelf),
{
    if is_self {
        Err(UserError::CannotDeleteSelf)
    } else {
        Ok(())
    }
}

// ─── Suspension ────────────────────────────────────────────────

/// What suspending or un-suspending an account does.
pub struct SuspendPlan {
    /// The role the account gets.
    pub new_role: String,
    /// The role parked while the account is suspended, when it is being
    /// suspended.
    pub park_role: Option<String>,
    /// `user.suspend` or `user.unsuspend`.
    pub action: &'static str,
}

/// A suspended account gets back its parked role when that is a known
/// one, `user` otherwise; any other account is suspended and its role is
/// parked.
pub open spec fn suspend_toggle_of(role: Seq<char>, parked: Option<Seq<char>>) -> (Seq<char>, Option<Seq<char>>, Seq<char>) {
    if role == "suspended"@ {
        let original = match parked { Some(p) => p, None => "user"@ };
        (if is_role(original) { original } else { "user"@ }, None, "user.unsuspend"@)
    } else {
        ("suspended"@, Some(role), "user.suspend"@)
    }
}

pub fn toggle_suspend_plan(is_self: bool, role: &str, parked: &Option<String>) -> (r: Result<SuspendPlan, UserError>)
    ensures
        is_self ==> r == Err::<SuspendPlan, UserError>(UserError::CannotSuspendSelf),
        !is_self ==> (r matches Ok(p)
            && (p.new_role@, p.park_role.deep_view(), p.action@) == suspend_toggle_of(role@, parked.deep_view())),
{
    if is_self {
        return Err(UserError::CannotSuspendSelf);
    }
    if str_eq(role, "suspended") {
        let original = match parked {
            Some(p) => String::from_str(p.as_str()),
            None => String::from_str("user"),
        };
        let new_role = if role_ok(original.as_str()) { original } else { String::from_str("user") };
        Ok(SuspendPlan { new_role, park_role: None, action: "user.unsuspend" })
    } else {
        Ok(SuspendPlan {
            new_role: String::from_str("suspended"),
            park_role: Some(String::from_str(role)),
            action: "user.suspend",
        })
    }
}

/// Suspending an account with a known role and then un-suspending it
/// gives the account its role back.
pub proof fn law_suspend_then_unsuspend_restores_role(role: Seq<char>, parked: Option<Seq<char>>)
    requires
        is_role(role),
    ensures
        ({
            let s = suspend_toggle_of(role, parked);
            suspend_toggle_of(s.0, s.1).0 == role
        }),
{
    reveal_strlit("suspended");
    reveal_strlit("admin");
    reveal_strlit("reseller");
    reveal_strlit("user");
    assert("suspended"@.len() == 9 && "admin"@.len() == 5 && "reseller"@.len() == 8 && "user"@.len() == 4);
    assert(role != "suspended"@);
}

/// Un-suspending always leaves the account with a known role.
pub proof fn law_unsuspend_gives_known_role(parked: Option<Seq<char>>)
    ensures
        is_role(suspend_toggle_of("suspended"@, parked).0),
{
}

} // verus!
