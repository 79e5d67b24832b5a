//! API keys of the signed-in user: the checks of a new key and of the
//! scopes it is given.
use vstd::prelude::*;

use crate::http::{is_error, uuid_text, uuid_to_string, ApiError};
use crate::text::{chars_of, lemma_seg_len, seg_len, seg_len_exec, string_from_chars, to_owned_string};

verus! {

/// An API key in a list.
#[derive(Debug, Clone)]
pub struct ApiKeySummary {
    pub id: String,
    pub name: String,
    pub key_prefix: String,
    /// Each scope as `resource:action`.
    pub scopes: Vec<String>,
    pub created_at: String,
    pub expires_at: Option<String>,
}

/// Body of `POST /api/users/me/api-keys`.
#[derive(Debug, Clone)]
pub struct CreateApiKeyRequest {
    pub name: String,
    /// Scopes as `resource:action`.
    pub scopes: Option<Vec<String>>,
}

/// Answer of a key creation: the only time the plaintext key is shown.
#[derive(Debug, Clone)]
pub struct CreateApiKeyResponse {
    pub id: String,
    pub name: String,
    pub key_prefix: String,
    pub plaintext: String,
    pub scopes: Vec<String>,
}

/// A key needs a name (`400`).
pub fn check_key_name(body: &CreateApiKeyRequest) -> (r: Result<(), ApiError>)
    ensures
        body.name@.len() == 0 ==> r is Err && is_error(r->Err_0, 400, "name is required"@, false),
        body.name@.len() > 0 ==> r is Ok,
{
    if body.name.as_str().is_empty() {
        return Err(ApiError::text(400, "name is required"));
    }
    Ok(())
}

/// The requested scopes: none when absent.
pub fn requested_scopes(body: &CreateApiKeyRequest) -> (r: &[String])
    ensures
        r@ == (match body.scopes {
            Some(s) => s@,
            None => Seq::<String>::empty(),
        }),
{
    match &body.scopes {
        Some(s) => s.as_slice(),
        None => &[],
    }
}

/// Splits a scope at its first `:` into resource and action.
pub open spec fn split_scope_spec(s: Seq<char>) -> Option<(Seq<char>, Seq<char>)> {
    let k = seg_len(s, ':');
    if k < s.len() {
        Some((s.take(k as int), s.skip(k + 1 as int)))
    } else {
        None
    }
}

/// Splitting a scope and joining the parts with `:` gives the scope back,
/// and the resource part holds no `:`.
pub proof fn law_scope_split_round_trip(s: Seq<char>)
    ensures
        split_scope_spec(s) matches Some((a, b)) ==> a + ":"@ + b == s && forall|j: int|
            0 <= j < a.len() ==> a[j] != ':',
{
    reveal_strlit(":");
    lemma_seg_len(s, ':');
    let k = seg_len(s, ':') as int;
    if k < s.len() {
        assert(s.take(k) + ":"@ + s.skip(k + 1) =~= s);
    }
}

/// Splits a scope at its first `:`, as `str::split_once` does.
pub fn split_scope(s: &str) -> (r: Option<(String, String)>)
    ensures
        match split_scope_spec(s@) {
            Some((a, b)) => match r {
                Some((x, y)) => x@ == a && y@ == b,
                None => false,
            },
            None => r is None,
        },
{
    let v = chars_of(s);
    let k = seg_len_exec(v.as_slice(), 0, ':');
    assert(v@.skip(0) =~= v@);
    if k < v.len() {
        let mut a: Vec<char> = Vec::new();
        let mut i: usize = 0;
        while i < k
            invariant
                i <= k < v.len(),
                a@ == v@.take(i as int),
            decreases k - i,
        {
            a.push(v[i]);
            assert(v@.take(i as int).push(v@[i as int]) =~= v@.take(i + 1));
            i = i + 1;
        }
        let mut b: Vec<char> = Vec::new();
        let mut j: usize = k + 1;
        while j < v.len()
            invariant
                k + 1 <= j <= v.len(),
                b@ == v@.subrange(k + 1, j as int),
            decreases v.len() - j,
        {
            b.push(v[j]);
            assert(v@.subrange(k + 1, j as int).push(v@[j as int]) =~= v@.subrange(k + 1, j + 1));
            j = j + 1;
        }
        assert(v@.subrange(k + 1, v.len() as int) =~= v@.skip(k + 1));
        Some((string_from_chars(a.as_slice()), string_from_chars(b.as_slice())))
    } else {
        None
    }
}

/// The first problem with the requested scopes, checking them in order:
/// one without `:`, one whose resource is not known (`resource_ok[i]`), one
/// whose action is not known (`action_ok[i]`). Each names the scope.
pub open spec fn scope_problem(
    scopes: Seq<String>,
    resource_ok: Seq<bool>,
    action_ok: Seq<bool>,
    from: int,
) -> Option<Seq<char>>
    decreases scopes.len() - from,
{
    if from < 0 || from >= scopes.len() {
        None
    } else {
        let s = scopes[from]@;
        if split_scope_spec(s) is None {
            Some("invalid scope format: "@ + s)
        } else if !resource_ok[from] {
            Some("invalid resource in scope: "@ + s)
        } else if !action_ok[from] {
            Some("invalid action in scope: "@ + s)
        } else {
            scope_problem(scopes, resource_ok, action_ok, from + 1)
        }
    }
}

/// Checks the requested scopes; the problem is answered with `400`.
pub fn check_scopes(scopes: &[String], resource_ok: &[bool], action_ok: &[bool]) -> (r: Result<
    (),
    ApiError,
>)
    requires
        resource_ok.len() == scopes.len(),
        action_ok.len() == scopes.len(),
    ensures
        match scope_problem(scopes@, resource_ok@, action_ok@, 0) {
            None => r is Ok,
            Some(m) => r is Err && is_error(r->Err_0, 400, m, false),
        },
{
    let mut i: usize = 0;
    while i < scopes.len()
        invariant
            i <= scopes.len(),
            resource_ok.len() == scopes.len(),
            action_ok.len() == scopes.len(),
            scope_problem(scopes@, resource_ok@, action_ok@, 0) == scope_problem(
                scopes@,
                resource_ok@,
                action_ok@,
                i as int,
            ),
        decreases scopes.len() - i,
    {
        let s = scopes[i].as_str();
        let split = split_scope(s);
        if split.is_none() {
            let mut m = to_owned_string("invalid scope format: ");
            m.append(s);
            return Err(ApiError { status: 400, message: m, json: false });
        }
        if !resource_ok[i] {
            let mut m = to_owned_string("invalid resource in scope: ");
            m.append(s);
            return Err(ApiError { status: 400, message: m, json: false });
        }
        if !action_ok[i] {
            let mut m = to_owned_string("invalid action in scope: ");
            m.append(s);
            return Err(ApiError { status: 400, message: m, json: false });
        }
        i = i + 1;
    }
    Ok(())
}

/// The id of a new key: `key_` and a fresh UUID.
pub fn new_key_id(new_id: u128) -> (r: String)
    ensures
        r@ == "key_"@ + uuid_text(new_id),
{
    let mut id = to_owned_string("key_");
    let u = uuid_to_string(new_id);
    id.append(u.as_str());
    id
}

/// The answer of a revocation: `204` when the caller's key was revoked,
/// `404` when the caller has no such key, `500` when the store failed.
pub fn revoke_result(revoked: Result<bool, ()>) -> (r: Result<(), ApiError>)
    ensures
        revoked == Ok::<bool, ()>(true) ==> r is Ok,
        revoked == Ok::<bool, ()>(false) ==> r is Err && is_error(
            r->Err_0,
            404,
            "API key not found"@,
            false,
        ),
        revoked is Err ==> r is Err && is_error(r->Err_0, 500, "failed to revoke key"@, false),
{
    match revoked {
        Ok(true) => Ok(()),
        Ok(false) => Err(ApiError::text(404, "API key not found")),
        Err(()) => Err(ApiError::text(500, "failed to revoke key")),
    }
}

} // verus!
