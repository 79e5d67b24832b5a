//! Self-service for the signed-in user: profile changes and password
//! changes, which accounts managed by an identity provider cannot make.
use vstd::prelude::*;

use crate::http::{is_error, ApiError};
use crate::spaces::OrgRecord;
use crate::text::{contains_char, has_char, str_eq, to_owned_string};
use crate::users::{user_detail, UserDetail, UserRecord};

verus! {

/// Body of `PATCH /api/users/me`.
#[derive(Debug, Clone)]
pub struct UpdateCurrentUserRequest {
    pub name: Option<String>,
    pub email: Option<String>,
}

/// Answer of `PATCH /api/users/me`.
#[derive(Debug, Clone)]
pub struct UpdateCurrentUserResponse {
    pub user: UserDetail,
    /// The email before the change, when the email changed.
    pub previous_email: Option<String>,
}

/// Body of `POST /api/users/me/password`.
#[derive(Debug, Clone)]
pub struct ChangePasswordRequest {
    pub current_password: String,
    pub new_password: String,
}

/// What is wrong with an email address, if anything: it must not be empty
/// and must contain `@`.
pub open spec fn email_problem(email: Seq<char>) -> Option<Seq<char>> {
    if email.len() == 0 {
        Some("email must not be empty"@)
    } else if !has_char(email, '@') {
        Some("email must contain '@'"@)
    } else {
        None
    }
}

/// Checks an email address.
pub fn validate_email(email: &str) -> (r: Result<(), String>)
    ensures
        match email_problem(email@) {
            None => r is Ok,
            Some(m) => r is Err && r->Err_0@ == m,
        },
{
    if email.is_empty() {
        return Err(to_owned_string("email must not be empty"));
    }
    let v = crate::text::chars_of(email);
    if !contains_char(v.as_slice(), '@') {
        return Err(to_owned_string("email must contain '@'"));
    }
    Ok(())
}

/// Whether the caller's organisation lets its users manage their own
/// credentials: it must be readable (`500` with `org not found` or
/// `internal server error` otherwise, JSON), and `Ok(true)` means it signs
/// in through an identity provider (`oidc`).
pub fn org_is_oidc(org: Result<Option<OrgRecord>, ()>) -> (r: Result<bool, ApiError>)
    ensures
        match org {
            Ok(Some(o)) => r == Ok::<bool, ApiError>(o.auth_mode@ == "oidc"@),
            Ok(None) => r is Err && is_error(r->Err_0, 500, "org not found"@, true),
            Err(()) => r is Err && is_error(r->Err_0, 500, "internal server error"@, true),
        },
{
    match org {
        Ok(Some(o)) => Ok(str_eq(o.auth_mode.as_str(), "oidc")),
        Ok(None) => Err(ApiError::json(500, "org not found")),
        Err(()) => Err(ApiError::json(500, "internal server error")),
    }
}

/// The refusal for an account that an identity provider manages: `409`
/// naming the user's issuer, or `your identity provider` when unknown.
pub fn managed_by_idp(issuer: Option<String>) -> (e: ApiError)
    ensures
        e.status == 409 && e.json,
        e.message@ == "account managed by identity provider "@ + (match issuer {
            Some(i) => i@,
            None => "your identity provider"@,
        }),
{
    let mut m = to_owned_string("account managed by identity provider ");
    match issuer {
        Some(i) => m.append(i.as_str()),
        None => m.append("your identity provider"),
    }
    ApiError { status: 409, message: m, json: true }
}

/// The signed-in user's record: absent is `404`, a store failure `500`
/// (both JSON).
pub fn current_user(found: Result<Option<UserRecord>, ()>) -> (r: Result<UserRecord, ApiError>)
    ensures
        match found {
            Ok(Some(u)) => r == Ok::<UserRecord, ApiError>(u),
            Ok(None) => r is Err && is_error(r->Err_0, 404, "user not found"@, true),
            Err(()) => r is Err && is_error(r->Err_0, 500, "internal server error"@, true),
        },
{
    match found {
        Ok(Some(u)) => Ok(u),
        Ok(None) => Err(ApiError::json(404, "user not found")),
        Err(()) => Err(ApiError::json(500, "internal server error")),
    }
}

/// The email change that a profile update asks for: a given email must be
/// valid (`400`, JSON); `Some` when it differs from the current one, so
/// that it must be checked for collisions and written.
pub fn requested_email_change(user: &UserRecord, email: Option<&str>) -> (r: Result<
    Option<String>,
    ApiError,
>)
    ensures
        match email {
            None => r == Ok::<Option<String>, ApiError>(None),
            Some(e) => match email_problem(e@) {
                Some(m) => r is Err && is_error(r->Err_0, 400, m, true),
                None => r is Ok && if e@ == user.email@ {
                    r->Ok_0 is None
                } else {
                    r->Ok_0 is Some && r->Ok_0->0@ == e@
                },
            },
        },
{
    match email {
        None => Ok(None),
        Some(e) => {
            match validate_email(e) {
                Ok(()) => {},
                Err(m) => {
                    return Err(ApiError { status: 400, message: m, json: true });
                },
            }
            if str_eq(e, user.email.as_str()) {
                Ok(None)
            } else {
                Ok(Some(to_owned_string(e)))
            }
        },
    }
}

/// The collision check of an email change: another user of the
/// organisation with the email is `409`, a failed lookup `500` (JSON). The
/// lookup gives the id of the user holding the email, if any.
pub fn check_email_collision(holder: Result<Option<String>, ()>, user_id: &str) -> (r: Result<
    (),
    ApiError,
>)
    ensures
        match holder {
            Ok(Some(id)) => if id@ != user_id@ {
                r is Err && is_error(r->Err_0, 409, "email already exists in this org"@, true)
            } else {
                r is Ok
            },
            Ok(None) => r is Ok,
            Err(()) => r is Err && is_error(r->Err_0, 500, "internal server error"@, true),
        },
{
    match holder {
        Ok(Some(id)) => {
            if !str_eq(id.as_str(), user_id) {
                Err(ApiError::json(409, "email already exists in this org"))
            } else {
                Ok(())
            }
        },
        Ok(None) => Ok(()),
        Err(()) => Err(ApiError::json(500, "internal server error")),
    }
}

/// Applies a profile update: a given name replaces the stored one, an
/// email change (already checked) replaces the email, and the update time
/// is set. The previous email is reported only when the email changed.
pub fn apply_profile_update(
    user: UserRecord,
    name: Option<String>,
    email_change: Option<String>,
    now: &str,
) -> (r: (UserRecord, UpdateCurrentUserResponse))
    ensures
        r.0.id == user.id && r.0.org_id == user.org_id && r.0.password_hash == user.password_hash
            && r.0.created_at == user.created_at,
        r.0.name == (match name {
            Some(n) => n,
            None => user.name,
        }),
        r.0.email == (match email_change {
            Some(e) => e,
            None => user.email,
        }),
        r.0.updated_at@ == now@,
        r.1.user.email@ == r.0.email@ && r.1.user.name@ == r.0.name@ && r.1.user.id@ == r.0.id@,
        match email_change {
            Some(_) => r.1.previous_email is Some && r.1.previous_email->0@ == user.email@,
            None => r.1.previous_email is None,
        },
{
    let previous = user.email.clone();
    let mut u = user;
    match name {
        Some(n) => {
            u.name = n;
        },
        None => {},
    }
    let changed = email_change.is_some();
    match email_change {
        Some(e) => {
            u.email = e;
        },
        None => {},
    }
    u.updated_at = to_owned_string(now);
    let detail = user_detail(&u);
    let previous_email = if changed {
        Some(previous)
    } else {
        None
    };
    (u, UpdateCurrentUserResponse { user: detail, previous_email })
}

/// The checks of a password change before the user is read: the new
/// password must not be empty (`400`, JSON).
pub fn check_new_password(body: &ChangePasswordRequest) -> (r: Result<(), ApiError>)
    ensures
        body.new_password@.len() == 0 ==> r is Err && is_error(
            r->Err_0,
            400,
            "new password must not be empty"@,
            true,
        ),
        body.new_password@.len() > 0 ==> r is Ok,
{
    if body.new_password.as_str().is_empty() {
        return Err(ApiError::json(400, "new password must not be empty"));
    }
    Ok(())
}

/// The answer to the check of the current password: a wrong password is
/// `401`, a failed check `500` (JSON).
pub fn check_current_password(verified: Result<bool, ()>) -> (r: Result<(), ApiError>)
    ensures
        verified == Ok::<bool, ()>(true) ==> r is Ok,
        verified == Ok::<bool, ()>(false) ==> r is Err && is_error(
            r->Err_0,
            401,
            "current password is incorrect"@,
            true,
        ),
        verified is Err ==> r is Err && is_error(r->Err_0, 500, "internal server error"@, true),
{
    match verified {
        Ok(true) => Ok(()),
        Ok(false) => Err(ApiError::json(401, "current password is incorrect")),
        Err(()) => Err(ApiError::json(500, "internal server error")),
    }
}

/// Writes the new password hash into the user record and sets the update
/// time; everything else stays.
pub fn with_new_password(user: UserRecord, new_hash: String, now: &str) -> (r: UserRecord)
    ensures
        r.password_hash == new_hash,
        r.updated_at@ == now@,
        r.id == user.id && r.org_id == user.org_id && r.email == user.email && r.name == user.name
            && r.created_at == user.created_at,
{
    let mut u = user;
    u.password_hash = new_hash;
    u.updated_at = to_owned_string(now);
    u
}

/// The end of a password change: persisting the user and then revoking its
/// other sessions must both succeed (`500`, JSON, otherwise); success is
/// `204`.
pub fn password_change_result(persisted: bool, revoked: bool) -> (r: Result<(), ApiError>)
    ensures
        !persisted ==> r is Err && is_error(r->Err_0, 500, "failed to update password"@, true),
        persisted && !revoked ==> r is Err && is_error(
            r->Err_0,
            500,
            "password changed but session revocation failed"@,
            true,
        ),
        persisted && revoked ==> r is Ok,
{
    if !persisted {
        return Err(ApiError::json(500, "failed to update password"));
    }
    if !revoked {
        return Err(ApiError::json(500, "password changed but session revocation failed"));
    }
    Ok(())
}

} // verus!
