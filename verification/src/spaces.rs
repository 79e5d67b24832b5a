//! Organisations, their spaces and the spaces' members: who may reach each
//! endpoint, and what the endpoints make of the stored records.
use vstd::prelude::*;

use crate::access::{
    can_admin_space, can_manage_members, can_view_space, may_view_space, parse_role, role_name,
    role_of_name, role_to_str, Caller, Role,
};
use crate::http::{is_error, uuid_text, uuid_to_string, ApiError};
use crate::text::{str_eq, to_owned_string};

verus! {

// -- Access ----------------------------------------------------------------------------

/// The space and membership endpoints.
#[derive(Debug, Clone, Copy, PartialEq, Eq)]
pub enum SpaceOp {
    ListSpaces,
    CreateSpace,
    GetSpace,
    UpdateSpace,
    DeleteSpace,
    ListMembers,
    ManageMembers,
}

/// The refusal, if any, of a space endpoint for a caller, on the
/// organisation and space of the request path. The membership endpoints go
/// by the caller's roles alone.
pub open spec fn space_guard(c: Caller, org: Seq<char>, space: Seq<char>, op: SpaceOp) -> Option<
    (u16, Seq<char>),
> {
    match op {
        SpaceOp::ListMembers => if !can_view_space(c, space) {
            Some((403, "access denied"@))
        } else {
            None
        },
        SpaceOp::ManageMembers => if !can_admin_space(c, space) {
            Some((403, "space admin or org admin required"@))
        } else {
            None
        },
        _ => if c.org_id@ != org {
            Some((403, "access denied"@))
        } else {
            match op {
                SpaceOp::CreateSpace => if !c.org_admin {
                    Some((403, "org admin required"@))
                } else {
                    None
                },
                SpaceOp::DeleteSpace => if !c.org_admin {
                    Some((403, "org admin required"@))
                } else {
                    None
                },
                SpaceOp::GetSpace => if !can_view_space(c, space) {
                    Some((403, "access denied"@))
                } else {
                    None
                },
                SpaceOp::UpdateSpace => if !can_admin_space(c, space) {
                    Some((403, "space admin required"@))
                } else {
                    None
                },
                _ => None,
            }
        },
    }
}

/// The refusal as an error answer.
pub open spec fn guard_matches(g: Option<(u16, Seq<char>)>, r: Result<(), ApiError>) -> bool {
    match g {
        None => r is Ok,
        Some((status, msg)) => r is Err && is_error(r->Err_0, status, msg, false),
    }
}

/// Checks whether a caller may reach a space endpoint.
pub fn check_space_access(c: &Caller, org: &str, space: &str, op: SpaceOp) -> (r: Result<
    (),
    ApiError,
>)
    ensures
        guard_matches(space_guard(*c, org@, space@, op), r),
{
    match op {
        SpaceOp::ListMembers => {
            if !may_view_space(c, space) {
                return Err(ApiError::text(403, "access denied"));
            }
            Ok(())
        },
        SpaceOp::ManageMembers => {
            if !can_manage_members(c, space) {
                return Err(ApiError::text(403, "space admin or org admin required"));
            }
            Ok(())
        },
        _ => {
            if !str_eq(c.org_id.as_str(), org) {
                return Err(ApiError::text(403, "access denied"));
            }
            match op {
                SpaceOp::CreateSpace | SpaceOp::DeleteSpace => {
                    if !c.org_admin {
                        return Err(ApiError::text(403, "org admin required"));
                    }
                    Ok(())
                },
                SpaceOp::GetSpace => {
                    if !may_view_space(c, space) {
                        return Err(ApiError::text(403, "access denied"));
                    }
                    Ok(())
                },
                SpaceOp::UpdateSpace => {
                    if !can_manage_members(c, space) {
                        return Err(ApiError::text(403, "space admin required"));
                    }
                    Ok(())
                },
                _ => Ok(()),
            }
        },
    }
}

/// A caller never reaches the spaces of another organisation: every space
/// endpoint refuses it with `403`.
pub proof fn law_space_tenant_isolation(c: Caller, org: Seq<char>, space: Seq<char>, op: SpaceOp)
    requires
        c.org_id@ != org,
        op != SpaceOp::ListMembers && op != SpaceOp::ManageMembers,
    ensures
        space_guard(c, org, space, op) == Some((403u16, "access denied"@)),
{
}

/// A caller that is not an org admin and has no role in a space can neither
/// list nor manage its members.
pub proof fn law_members_need_a_role(c: Caller, org: Seq<char>, space: Seq<char>)
    requires
        !c.org_admin,
        c.role(space) is None,
    ensures
        space_guard(c, org, space, SpaceOp::ListMembers) is Some,
        space_guard(c, org, space, SpaceOp::ManageMembers) is Some,
{
}

/// Whoever may manage a space's members may also list them.
pub proof fn law_manage_implies_list(c: Caller, org: Seq<char>, space: Seq<char>)
    ensures
        space_guard(c, org, space, SpaceOp::ManageMembers) is None ==> space_guard(
            c,
            org,
            space,
            SpaceOp::ListMembers,
        ) is None,
{
}

// -- Organisations ---------------------------------------------------------------------------

/// An organisation as the store keeps it.
#[derive(Debug, Clone)]
pub struct OrgRecord {
    pub id: String,
    pub name: String,
    pub slug: String,
    /// `password` or `oidc`.
    pub auth_mode: String,
    pub created_at: String,
    pub updated_at: String,
}

/// An organisation in a list.
#[derive(Debug, Clone)]
pub struct OrgSummary {
    pub id: String,
    pub name: String,
    pub slug: String,
    pub auth_mode: String,
}

/// An organisation with its timestamps.
#[derive(Debug, Clone)]
pub struct OrgDetail {
    pub id: String,
    pub name: String,
    pub slug: String,
    pub auth_mode: String,
    pub created_at: String,
    pub updated_at: String,
}

/// Body of `POST /api/orgs`.
#[derive(Debug, Clone)]
pub struct CreateOrgRequest {
    pub name: String,
    pub slug: String,
    /// `password` (the default) or `oidc`.
    pub auth_mode: Option<String>,
}

/// Body of `PATCH /api/orgs/{id}`.
#[derive(Debug, Clone)]
pub struct UpdateOrgRequest {
    pub name: Option<String>,
    pub auth_mode: Option<String>,
}

/// The detail of an organisation.
pub fn org_detail(o: OrgRecord) -> (d: OrgDetail)
    ensures
        d.id == o.id && d.name == o.name && d.slug == o.slug && d.auth_mode == o.auth_mode
            && d.created_at == o.created_at && d.updated_at == o.updated_at,
{
    OrgDetail {
        id: o.id,
        name: o.name,
        slug: o.slug,
        auth_mode: o.auth_mode,
        created_at: o.created_at,
        updated_at: o.updated_at,
    }
}

/// `GET /api/orgs`: the caller's own organisation, when it exists.
pub fn org_list(own: Option<OrgRecord>) -> (r: Vec<OrgSummary>)
    ensures
        own is None ==> r.len() == 0,
        own is Some ==> r.len() == 1 && r[0].id == own->0.id && r[0].name == own->0.name
            && r[0].slug == own->0.slug && r[0].auth_mode == own->0.auth_mode,
{
    let mut out: Vec<OrgSummary> = Vec::new();
    match own {
        Some(o) => {
            out.push(OrgSummary { id: o.id, name: o.name, slug: o.slug, auth_mode: o.auth_mode });
        },
        None => {},
    }
    out
}

/// The checks and the record of `POST /api/orgs`: only org admins create
/// organisations (`403`); name and slug are required (`400`). The new
/// organisation's id is `org_` and a fresh UUID, its authentication mode
/// `password` unless one is given.
pub fn plan_create_org(c: &Caller, body: CreateOrgRequest, new_id: u128, now: &str) -> (r: Result<
    OrgRecord,
    ApiError,
>)
    ensures
        !c.org_admin ==> r is Err && is_error(r->Err_0, 403, "org admin required"@, false),
        c.org_admin && (body.name@.len() == 0 || body.slug@.len() == 0) ==> r is Err && is_error(
            r->Err_0,
            400,
            "name and slug are required"@,
            false,
        ),
        c.org_admin && body.name@.len() > 0 && body.slug@.len() > 0 ==> r is Ok && {
            let o = r->Ok_0;
            &&& o.id@ == "org_"@ + uuid_text(new_id)
            &&& o.name == body.name
            &&& o.slug == body.slug
            &&& o.auth_mode@ == (match body.auth_mode {
                Some(m) => m@,
                None => "password"@,
            })
            &&& o.created_at@ == now@
            &&& o.updated_at@ == now@
        },
{
    if !c.org_admin {
        return Err(ApiError::text(403, "org admin required"));
    }
    if body.name.as_str().is_empty() || body.slug.as_str().is_empty() {
        return Err(ApiError::text(400, "name and slug are required"));
    }
    let mut id = to_owned_string("org_");
    let u = uuid_to_string(new_id);
    id.append(u.as_str());
    let auth_mode = match body.auth_mode {
        Some(m) => m,
        None => to_owned_string("password"),
    };
    Ok(
        OrgRecord {
            id,
            name: body.name,
            slug: body.slug,
            auth_mode,
            created_at: to_owned_string(now),
            updated_at: to_owned_string(now),
        },
    )
}

/// Who may read an organisation: its own members, and org admins.
pub fn check_get_org(c: &Caller, org_id: &str) -> (r: Result<(), ApiError>)
    ensures
        (c.org_id@ == org_id@ || c.org_admin) ==> r is Ok,
        !(c.org_id@ == org_id@ || c.org_admin) ==> r is Err && is_error(
            r->Err_0,
            403,
            "access denied"@,
            false,
        ),
{
    if !str_eq(c.org_id.as_str(), org_id) && !c.org_admin {
        return Err(ApiError::text(403, "access denied"));
    }
    Ok(())
}

/// A store lookup answered with `404` when absent and `500 internal server
/// error` when the store failed.
pub fn found_or<T>(found: Result<Option<T>, ()>, not_found: &str) -> (r: Result<T, ApiError>)
    ensures
        match found {
            Ok(Some(x)) => r == Ok::<T, ApiError>(x),
            Ok(None) => r is Err && is_error(r->Err_0, 404, not_found@, false),
            Err(()) => r is Err && is_error(r->Err_0, 500, "internal server error"@, false),
        },
{
    match found {
        Ok(Some(x)) => Ok(x),
        Ok(None) => Err(ApiError::text(404, not_found)),
        Err(()) => Err(ApiError::text(500, "internal server error")),
    }
}

/// `PATCH /api/orgs/{id}` on the stored organisation: only org admins
/// update (`403`); a given name or authentication mode replaces the stored
/// one and the update time is set.
pub fn apply_org_update(c: &Caller, org: OrgRecord, body: UpdateOrgRequest, now: &str) -> (r:
    Result<OrgRecord, ApiError>)
    ensures
        !c.org_admin ==> r is Err && is_error(r->Err_0, 403, "org admin required"@, false),
        c.org_admin ==> r is Ok && {
            let o = r->Ok_0;
            &&& o.id == org.id
            &&& o.slug == org.slug
            &&& o.created_at == org.created_at
            &&& o.name == (match body.name {
                Some(n) => n,
                None => org.name,
            })
            &&& o.auth_mode == (match body.auth_mode {
                Some(m) => m,
                None => org.auth_mode,
            })
            &&& o.updated_at@ == now@
        },
{
    if !c.org_admin {
        return Err(ApiError::text(403, "org admin required"));
    }
    let mut o = org;
    match body.name {
        Some(n) => {
            o.name = n;
        },
        None => {},
    }
    match body.auth_mode {
        Some(m) => {
            o.auth_mode = m;
        },
        None => {},
    }
    o.updated_at = to_owned_string(now);
    Ok(o)
}

// -- Spaces --------------------------------------------------------------------------------

/// A space as the store keeps it.
#[derive(Debug, Clone)]
pub struct SpaceRecord {
    pub id: String,
    pub org_id: String,
    pub name: String,
    pub slug: String,
    pub created_at: String,
    pub updated_at: String,
}

/// A space in a list.
#[derive(Debug, Clone)]
pub struct SpaceSummary {
    pub id: String,
    pub name: String,
    pub slug: String,
}

/// A space with its organisation and timestamps.
#[derive(Debug, Clone)]
pub struct SpaceDetail {
    pub id: String,
    pub org_id: String,
    pub name: String,
    pub slug: String,
    pub created_at: String,
    pub updated_at: String,
}

/// Body of `POST /api/orgs/{org_id}/spaces`.
#[derive(Debug, Clone)]
pub struct CreateSpaceRequest {
    pub name: String,
    pub slug: String,
}

/// Body of `PATCH /api/orgs/{org_id}/spaces/{id}`.
#[derive(Debug, Clone)]
pub struct UpdateSpaceRequest {
    pub name: Option<String>,
}

/// The detail of a space.
pub fn space_detail(s: SpaceRecord) -> (d: SpaceDetail)
    ensures
        d.id == s.id && d.org_id == s.org_id && d.name == s.name && d.slug == s.slug
            && d.created_at == s.created_at && d.updated_at == s.updated_at,
{
    SpaceDetail {
        id: s.id,
        org_id: s.org_id,
        name: s.name,
        slug: s.slug,
        created_at: s.created_at,
        updated_at: s.updated_at,
    }
}

/// The spaces that a space list shows: those of the organisation, in order.
pub open spec fn spaces_of_org(spaces: Seq<Option<SpaceRecord>>, org: Seq<char>) -> Seq<SpaceRecord>
    decreases spaces.len(),
{
    if spaces.len() == 0 {
        Seq::empty()
    } else {
        let rest = spaces_of_org(spaces.drop_last(), org);
        match spaces.last() {
            Some(s) => if s.org_id@ == org {
                rest.push(s)
            } else {
                rest
            },
            None => rest,
        }
    }
}

/// The space list of an organisation. Org admins get every space the store
/// lists for the organisation; anyone else gets the spaces of their
/// memberships (`None` where a space could not be read), leaving out those
/// of other organisations.
pub fn space_list(spaces: Vec<Option<SpaceRecord>>, org: &str) -> (r: Vec<SpaceSummary>)
    ensures
        r.len() == spaces_of_org(spaces@, org@).len(),
        forall|i: int|
            0 <= i < r.len() ==> {
                let s = spaces_of_org(spaces@, org@)[i];
                &&& (#[trigger] r[i]).id == s.id
                &&& r[i].name == s.name
                &&& r[i].slug == s.slug
            },
{
    let ghost orig = spaces@;
    let total = spaces.len();
    let mut rest = spaces;
    let mut out: Vec<SpaceSummary> = Vec::new();
    let mut i: usize = 0;
    assert(orig.take(0) =~= Seq::<Option<SpaceRecord>>::empty());
    while rest.len() > 0
        invariant
            i + rest.len() == total,
            total == orig.len(),
            rest@ == orig.skip(i as int),
            out.len() == spaces_of_org(orig.take(i as int), org@).len(),
            forall|k: int|
                0 <= k < out.len() ==> {
                    let s = spaces_of_org(orig.take(i as int), org@)[k];
                    &&& (#[trigger] out[k]).id == s.id
                    &&& out[k].name == s.name
                    &&& out[k].slug == s.slug
                },
        decreases rest.len(),
    {
        let x = rest.remove(0);
        proof {
            assert(x == orig[i as int]);
            let t = orig.take(i + 1);
            assert(t.drop_last() =~= orig.take(i as int));
            assert(t.last() == orig[i as int]);
            assert(orig.skip(i + 1) =~= orig.skip(i as int).remove(0));
        }
        match x {
            Some(s) => {
                if str_eq(s.org_id.as_str(), org) {
                    out.push(SpaceSummary { id: s.id, name: s.name, slug: s.slug });
                }
            },
            None => {},
        }
        i = i + 1;
    }
    assert(orig.take(total as int) =~= orig);
    out
}

/// The record of `POST /api/orgs/{org_id}/spaces` once the caller passed
/// the access check: name and slug are required (`400`); the new space's id
/// is `spc_` and a fresh UUID.
pub fn plan_create_space(org: &str, body: CreateSpaceRequest, new_id: u128, now: &str) -> (r:
    Result<SpaceRecord, ApiError>)
    ensures
        (body.name@.len() == 0 || body.slug@.len() == 0) ==> r is Err && is_error(
            r->Err_0,
            400,
            "name and slug are required"@,
            false,
        ),
        body.name@.len() > 0 && body.slug@.len() > 0 ==> r is Ok && {
            let s = r->Ok_0;
            &&& s.id@ == "spc_"@ + uuid_text(new_id)
            &&& s.org_id@ == org@
            &&& s.name == body.name
            &&& s.slug == body.slug
            &&& s.created_at@ == now@
            &&& s.updated_at@ == now@
        },
{
    if body.name.as_str().is_empty() || body.slug.as_str().is_empty() {
        return Err(ApiError::text(400, "name and slug are required"));
    }
    let mut id = to_owned_string("spc_");
    let u = uuid_to_string(new_id);
    id.append(u.as_str());
    Ok(
        SpaceRecord {
            id,
            org_id: to_owned_string(org),
            name: body.name,
            slug: body.slug,
            created_at: to_owned_string(now),
            updated_at: to_owned_string(now),
        },
    )
}

/// A space looked up for an organisation: a space of another organisation
/// counts as absent (`404 space not found`); a store failure is `500`.
pub fn space_in_org(found: Result<Option<SpaceRecord>, ()>, org: &str) -> (r: Result<
    SpaceRecord,
    ApiError,
>)
    ensures
        match found {
            Ok(Some(s)) => if s.org_id@ == org@ {
                r == Ok::<SpaceRecord, ApiError>(s)
            } else {
                r is Err && is_error(r->Err_0, 404, "space not found"@, false)
            },
            Ok(None) => r is Err && is_error(r->Err_0, 404, "space not found"@, false),
            Err(()) => r is Err && is_error(r->Err_0, 500, "internal server error"@, false),
        },
{
    match found {
        Ok(Some(s)) => {
            if str_eq(s.org_id.as_str(), org) {
                Ok(s)
            } else {
                Err(ApiError::text(404, "space not found"))
            }
        },
        Ok(None) => Err(ApiError::text(404, "space not found")),
        Err(()) => Err(ApiError::text(500, "internal server error")),
    }
}

/// A rename of a space: the given name replaces the stored one, and the
/// update time is set.
pub fn apply_space_update(space: SpaceRecord, body: UpdateSpaceRequest, now: &str) -> (r:
    SpaceRecord)
    ensures
        r.id == space.id && r.org_id == space.org_id && r.slug == space.slug && r.created_at
            == space.created_at,
        r.name == (match body.name {
            Some(n) => n,
            None => space.name,
        }),
        r.updated_at@ == now@,
{
    let mut s = space;
    match body.name {
        Some(n) => {
            s.name = n;
        },
        None => {},
    }
    s.updated_at = to_owned_string(now);
    s
}

/// The answer of a deletion: `204` when a record was deleted, `404` when
/// there was none, `500` when the store failed.
pub fn deletion_result(deleted: Result<bool, ()>, not_found: &str, failed: &str) -> (r: Result<
    (),
    ApiError,
>)
    ensures
        match deleted {
            Ok(true) => r is Ok,
            Ok(false) => r is Err && is_error(r->Err_0, 404, not_found@, false),
            Err(()) => r is Err && is_error(r->Err_0, 500, failed@, false),
        },
{
    match deleted {
        Ok(true) => Ok(()),
        Ok(false) => Err(ApiError::text(404, not_found)),
        Err(()) => Err(ApiError::text(500, failed)),
    }
}

// -- Members ---------------------------------------------------------------------------------

/// A member of a space.
#[derive(Debug, Clone)]
pub struct MemberEntry {
    pub user_id: String,
    pub space_id: String,
    /// The kebab-case role name.
    pub role: String,
    pub created_at: String,
}

/// Body of `POST .../members`.
#[derive(Debug, Clone)]
pub struct AddMemberRequest {
    pub user_id: String,
    /// `org-admin`, `space-admin`, `member` or `viewer`.
    pub role: String,
}

/// Body of `PATCH .../members/{user_id}`.
#[derive(Debug, Clone)]
pub struct UpdateMemberRequest {
    pub role: String,
}

/// A membership as the store keeps it.
#[derive(Debug, Clone)]
pub struct Membership {
    pub user_id: String,
    pub space_id: String,
    pub role: Role,
    pub created_at: String,
}

/// The entry of a membership.
pub fn member_entry(m: Membership) -> (e: MemberEntry)
    ensures
        e.user_id == m.user_id && e.space_id == m.space_id && e.role@ == role_name(m.role)
            && e.created_at == m.created_at,
{
    MemberEntry {
        user_id: m.user_id,
        space_id: m.space_id,
        role: to_owned_string(role_to_str(m.role)),
        created_at: m.created_at,
    }
}

/// The membership that adding a member or changing a member's role writes:
/// the role name must parse (`400 invalid role`).
pub fn plan_membership(user_id: String, space_id: &str, role: &str, now: &str) -> (r: Result<
    Membership,
    ApiError,
>)
    ensures
        role_of_name(role@) is None ==> r is Err && is_error(r->Err_0, 400, "invalid role"@, false),
        role_of_name(role@) is Some ==> r is Ok && r->Ok_0.user_id == user_id && r->Ok_0.space_id@
            == space_id@ && r->Ok_0.role == role_of_name(role@)->0 && r->Ok_0.created_at@ == now@,
{
    match parse_role(role) {
        Some(r) => Ok(
            Membership {
                user_id,
                space_id: to_owned_string(space_id),
                role: r,
                created_at: to_owned_string(now),
            },
        ),
        None => Err(ApiError::text(400, "invalid role")),
    }
}

} // verus!
