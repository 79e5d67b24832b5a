//! Users of an organisation: who may list, read, change and remove them,
//! and the records that creation and updates write.
use vstd::prelude::*;

use crate::access::Caller;
use crate::http::{is_error, uuid_text, uuid_to_string, ApiError};
use crate::text::{str_eq, to_owned_string};

verus! {

/// A user as the store keeps it.
#[derive(Debug, Clone)]
pub struct UserRecord {
    pub id: String,
    pub org_id: String,
    pub email: String,
    pub name: String,
    /// Empty for users without a password (invited, or signed in through an
    /// identity provider).
    pub password_hash: String,
    pub idp_issuer: Option<String>,
    pub idp_subject: Option<String>,
    pub created_at: String,
    pub updated_at: String,
}

/// A user in a list.
#[derive(Debug, Clone)]
pub struct UserSummary {
    pub id: String,
    pub email: String,
    pub name: String,
}

/// A user without the password hash.
#[derive(Debug, Clone)]
pub struct UserDetail {
    pub id: String,
    pub org_id: String,
    pub email: String,
    pub name: String,
    pub created_at: String,
    pub updated_at: String,
}

/// Body of `POST /api/orgs/{org_id}/users`.
#[derive(Debug, Clone)]
pub struct CreateUserRequest {
    pub email: String,
    pub name: String,
    /// Initial password (required in password authentication mode).
    pub password: Option<String>,
}

/// Body of `PATCH /api/orgs/{org_id}/users/{id}`.
#[derive(Debug, Clone)]
pub struct UpdateUserRequest {
    pub name: Option<String>,
    pub email: Option<String>,
}

/// The user endpoints.
#[derive(Debug, Clone, Copy, PartialEq, Eq)]
pub enum UserOp {
    List,
    Create,
    Get,
    Update,
    Delete,
}

/// The refusal, if any, of a user endpoint: only callers of the path's
/// organisation get through; listing, creating and deleting need an org
/// admin; reading and updating a user need that user or an org admin.
pub open spec fn user_guard(c: Caller, org: Seq<char>, target: Seq<char>, op: UserOp) -> Option<
    (u16, Seq<char>),
> {
    if c.org_id@ != org {
        Some((403, "access denied"@))
    } else {
        match op {
            UserOp::Get => if c.user_id@ != target && !c.org_admin {
                Some((403, "access denied"@))
            } else {
                None
            },
            UserOp::Update => if c.user_id@ != target && !c.org_admin {
                Some((403, "access denied"@))
            } else {
                None
            },
            _ => if !c.org_admin {
                Some((403, "org admin required"@))
            } else {
                None
            },
        }
    }
}

/// Checks whether a caller may reach a user endpoint (`target` is the
/// user of the path, empty for the list and creation).
pub fn check_user_access(c: &Caller, org: &str, target: &str, op: UserOp) -> (r: Result<
    (),
    ApiError,
>)
    ensures
        crate::spaces::guard_matches(user_guard(*c, org@, target@, op), r),
{
    if !str_eq(c.org_id.as_str(), org) {
        return Err(ApiError::text(403, "access denied"));
    }
    match op {
        UserOp::Get | UserOp::Update => {
            if !str_eq(c.user_id.as_str(), target) && !c.org_admin {
                return Err(ApiError::text(403, "access denied"));
            }
            Ok(())
        },
        _ => {
            if !c.org_admin {
                return Err(ApiError::text(403, "org admin required"));
            }
            Ok(())
        },
    }
}

/// What the lookup of a path's user gives: a failed store `500`, no such
/// user `404`, and a user of another organisation `404` as well (an org
/// admin reaches the users of their own organisation only); otherwise the
/// user.
pub open spec fn user_lookup(found: Result<Option<UserRecord>, ()>, org: Seq<char>) -> Result<
    UserRecord,
    (u16, Seq<char>),
> {
    match found {
        Err(()) => Err((500u16, "internal server error"@)),
        Ok(None) => Err((404u16, "user not found"@)),
        Ok(Some(u)) => if u.org_id@ == org {
            Ok(u)
        } else {
            Err((404u16, "user not found"@))
        },
    }
}

/// The user of a path, after its lookup in the store: only a user of the
/// path's organisation is answered.
pub fn user_in_org(found: Result<Option<UserRecord>, ()>, org: &str) -> (r: Result<
    UserRecord,
    ApiError,
>)
    ensures
        match user_lookup(found, org@) {
            Ok(u) => r is Ok && r->Ok_0 == u,
            Err((status, msg)) => r is Err && is_error(r->Err_0, status, msg, false),
        },
{
    match found {
        Err(()) => Err(ApiError::text(500, "internal server error")),
        Ok(None) => Err(ApiError::text(404, "user not found")),
        Ok(Some(u)) => {
            if str_eq(u.org_id.as_str(), org) {
                Ok(u)
            } else {
                Err(ApiError::text(404, "user not found"))
            }
        },
    }
}

/// A caller never reaches the users of another organisation: a caller of
/// another organisation than the path's is refused, and what a lookup
/// answers with is always a user of the path's organisation.
pub proof fn law_user_tenant_isolation(
    c: Caller,
    org: Seq<char>,
    target: Seq<char>,
    op: UserOp,
    found: Result<Option<UserRecord>, ()>,
)
    ensures
        c.org_id@ != org ==> user_guard(c, org, target, op) == Some((403u16, "access denied"@)),
        user_lookup(found, org) matches Ok(u) ==> u.org_id@ == org,
        found matches Ok(Some(u)) && u.org_id@ != org ==> user_lookup(found, org) == Err::<
            UserRecord,
            (u16, Seq<char>),
        >((404u16, "user not found"@)),
{
}

/// Every user may read and update their own profile in their organisation.
pub proof fn law_self_service(c: Caller)
    ensures
        user_guard(c, c.org_id@, c.user_id@, UserOp::Get) is None,
        user_guard(c, c.org_id@, c.user_id@, UserOp::Update) is None,
{
}

/// The detail of a user: everything but the password hash.
pub fn user_detail(u: &UserRecord) -> (d: UserDetail)
    ensures
        d.id@ == u.id@ && d.org_id@ == u.org_id@ && d.email@ == u.email@ && d.name@ == u.name@
            && d.created_at@ == u.created_at@ && d.updated_at@ == u.updated_at@,
{
    UserDetail {
        id: u.id.clone(),
        org_id: u.org_id.clone(),
        email: u.email.clone(),
        name: u.name.clone(),
        created_at: u.created_at.clone(),
        updated_at: u.updated_at.clone(),
    }
}

/// The summaries of users, in order.
pub fn user_summaries(users: &[UserRecord]) -> (r: Vec<UserSummary>)
    ensures
        r.len() == users.len(),
        forall|i: int|
            0 <= i < users.len() ==> (#[trigger] r[i]).id@ == users[i].id@ && r[i].email@
                == users[i].email@ && r[i].name@ == users[i].name@,
{
    let mut out: Vec<UserSummary> = Vec::new();
    let mut i: usize = 0;
    while i < users.len()
        invariant
            i <= users.len(),
            out.len() == i,
            forall|k: int|
                0 <= k < i ==> (#[trigger] out[k]).id@ == users[k].id@ && out[k].email@
                    == users[k].email@ && out[k].name@ == users[k].name@,
        decreases users.len() - i,
    {
        let u = &users[i];
        out.push(UserSummary { id: u.id.clone(), email: u.email.clone(), name: u.name.clone() });
        i = i + 1;
    }
    out
}

/// The checks of a user creation before the duplicate lookup: email and
/// name are required (`400`).
pub fn check_create_user(body: &CreateUserRequest) -> (r: Result<(), ApiError>)
    ensures
        (body.email@.len() == 0 || body.name@.len() == 0) ==> r is Err && is_error(
            r->Err_0,
            400,
            "email and name are required"@,
            false,
        ),
        body.email@.len() > 0 && body.name@.len() > 0 ==> r is Ok,
{
    if body.email.as_str().is_empty() || body.name.as_str().is_empty() {
        return Err(ApiError::text(400, "email and name are required"));
    }
    Ok(())
}

/// The duplicate-email check: an existing user with the email is `409`, a
/// failed lookup `500`.
pub fn check_email_free(existing: Result<bool, ()>) -> (r: Result<(), ApiError>)
    ensures
        existing == Ok::<bool, ()>(false) ==> r is Ok,
        existing == Ok::<bool, ()>(true) ==> r is Err && is_error(
            r->Err_0,
            409,
            "email already exists in this org"@,
            false,
        ),
        existing is Err ==> r is Err && is_error(r->Err_0, 500, "internal server error"@, false),
{
    match existing {
        Ok(false) => Ok(()),
        Ok(true) => Err(ApiError::text(409, "email already exists in this org")),
        Err(()) => Err(ApiError::text(500, "internal server error")),
    }
}

/// The password to hash for a new user: only a non-empty one.
pub fn password_to_hash(body: &CreateUserRequest) -> (r: Option<&str>)
    ensures
        match body.password {
            Some(p) => if p@.len() > 0 {
                r is Some && r->0@ == p@
            } else {
                r is None
            },
            None => r is None,
        },
{
    match &body.password {
        Some(p) => {
            if p.as_str().is_empty() {
                None
            } else {
                Some(p.as_str())
            }
        },
        None => None,
    }
}

/// The record of a new user: id `usr_` and a fresh UUID, the password hash
/// (empty without a password), no identity provider.
pub fn new_user(org: &str, body: CreateUserRequest, password_hash: String, new_id: u128, now: &str) -> (r:
    UserRecord)
    ensures
        r.id@ == "usr_"@ + uuid_text(new_id),
        r.org_id@ == org@,
        r.email == body.email,
        r.name == body.name,
        r.password_hash == password_hash,
        r.idp_issuer is None && r.idp_subject is None,
        r.created_at@ == now@ && r.updated_at@ == now@,
{
    let mut id = to_owned_string("usr_");
    let u = uuid_to_string(new_id);
    id.append(u.as_str());
    UserRecord {
        id,
        org_id: to_owned_string(org),
        email: body.email,
        name: body.name,
        password_hash,
        idp_issuer: None,
        idp_subject: None,
        created_at: to_owned_string(now),
        updated_at: to_owned_string(now),
    }
}

/// An update of a user by an admin or the user: a given name or email
/// replaces the stored one, and the update time is set.
pub fn apply_user_update(user: UserRecord, body: UpdateUserRequest, now: &str) -> (r: UserRecord)
    ensures
        r.id == user.id && r.org_id == user.org_id && r.password_hash == user.password_hash
            && r.created_at == user.created_at && r.idp_issuer == user.idp_issuer
            && r.idp_subject == user.idp_subject,
        r.name == (match body.name {
            Some(n) => n,
            None => user.name,
        }),
        r.email == (match body.email {
            Some(e) => e,
            None => user.email,
        }),
        r.updated_at@ == now@,
{
    let mut u = user;
    match body.name {
        Some(n) => {
            u.name = n;
        },
        None => {},
    }
    match body.email {
        Some(e) => {
            u.email = e;
        },
        None => {},
    }
    u.updated_at = to_owned_string(now);
    u
}

} // verus!
