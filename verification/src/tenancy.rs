//! Records that belong to an organisation or a space (catalog items and
//! subscriptions, interface instances, persona bindings): who may reach
//! them, and the ownership checks that keep one tenant off another's
//! records.
use vstd::prelude::*;

use crate::access::{can_admin_space, can_manage_members, Caller};
use crate::http::{is_error, uuid_text, uuid_to_string, ApiError};
use crate::text::{str_eq, to_owned_string};

verus! {

/// An error answer in plain text or as JSON.
pub fn api_error(status: u16, message: &str, json: bool) -> (e: ApiError)
    ensures
        is_error(e, status, message@, json),
{
    if json {
        ApiError::json(status, message)
    } else {
        ApiError::text(status, message)
    }
}

/// The endpoints of organisation- and space-scoped records.
#[derive(Debug, Clone, Copy, PartialEq, Eq)]
pub enum ScopedOp {
    /// Reading catalog items, subscriptions, interfaces or bindings.
    Read,
    /// Publishing or deleting catalog items.
    ChangeCatalog,
    /// Creating or deleting subscriptions, interfaces or bindings of a space.
    ChangeSpace,
}

/// The refusal, if any, of a scoped endpoint: callers of another
/// organisation never get through; catalog changes need an org admin;
/// changes to a space's records need an admin of the space.
pub open spec fn scoped_guard(c: Caller, org: Seq<char>, space: Seq<char>, op: ScopedOp) -> Option<
    (u16, Seq<char>),
> {
    if c.org_id@ != org {
        Some((403, "access denied"@))
    } else {
        match op {
            ScopedOp::Read => None,
            ScopedOp::ChangeCatalog => if !c.org_admin {
                Some((403, "org admin required"@))
            } else {
                None
            },
            ScopedOp::ChangeSpace => if !can_admin_space(c, space) {
                Some((403, "space admin or org admin required"@))
            } else {
                None
            },
        }
    }
}

/// Checks whether a caller may reach a scoped endpoint; `json` is whether
/// the endpoint answers errors as JSON.
pub fn check_scoped(c: &Caller, org: &str, space: &str, op: ScopedOp, json: bool) -> (r: Result<
    (),
    ApiError,
>)
    ensures
        match scoped_guard(*c, org@, space@, op) {
            None => r is Ok,
            Some((status, msg)) => r is Err && is_error(r->Err_0, status, msg, json),
        },
{
    if !str_eq(c.org_id.as_str(), org) {
        return Err(api_error(403, "access denied", json));
    }
    match op {
        ScopedOp::Read => Ok(()),
        ScopedOp::ChangeCatalog => {
            if !c.org_admin {
                return Err(api_error(403, "org admin required", json));
            }
            Ok(())
        },
        ScopedOp::ChangeSpace => {
            if !can_manage_members(c, space) {
                return Err(api_error(403, "space admin or org admin required", json));
            }
            Ok(())
        },
    }
}

/// No scoped endpoint lets a caller reach another organisation's records.
pub proof fn law_scoped_tenant_isolation(c: Caller, org: Seq<char>, space: Seq<char>, op: ScopedOp)
    requires
        c.org_id@ != org,
    ensures
        scoped_guard(c, org, space, op) == Some((403u16, "access denied"@)),
{
}

/// The ownership check of a looked-up record: one that belongs elsewhere
/// is `403` with `foreign`, a missing one `404` with `missing`, a failed
/// lookup `500 internal server error`. `found` holds whether the record
/// belongs to the request's organisation or space.
pub open spec fn ownership_verdict(found: Result<Option<bool>, ()>, foreign: Seq<char>, missing: Seq<
    char,
>) -> Option<(u16, Seq<char>)> {
    match found {
        Ok(Some(true)) => None,
        Ok(Some(false)) => Some((403, foreign)),
        Ok(None) => Some((404, missing)),
        Err(()) => Some((500, "internal server error"@)),
    }
}

/// Applies an ownership check.
pub fn check_owner(found: Result<Option<bool>, ()>, foreign: &str, missing: &str, json: bool) -> (r:
    Result<(), ApiError>)
    ensures
        match ownership_verdict(found, foreign@, missing@) {
            None => r is Ok,
            Some((status, msg)) => r is Err && is_error(r->Err_0, status, msg, json),
        },
{
    match found {
        Ok(Some(true)) => Ok(()),
        Ok(Some(false)) => Err(api_error(403, foreign, json)),
        Ok(None) => Err(api_error(404, missing, json)),
        Err(()) => Err(api_error(500, "internal server error", json)),
    }
}

/// A record that belongs to another organisation or space is never acted
/// on: its ownership check refuses it.
pub proof fn law_foreign_record_refused(foreign: Seq<char>, missing: Seq<char>)
    ensures
        ownership_verdict(Ok(Some(false)), foreign, missing) == Some((403u16, foreign)),
{
}

// -- Catalog -----------------------------------------------------------------------------

/// The kinds of catalog resources.
#[derive(Debug, Clone, Copy, PartialEq, Eq)]
pub enum ResourceType {
    Skill,
    Template,
    Interface,
}

/// The resource type that a path segment names, singular or plural.
pub open spec fn resource_type_of(s: Seq<char>) -> Option<ResourceType> {
    if s == "skill"@ || s == "skills"@ {
        Some(ResourceType::Skill)
    } else if s == "template"@ || s == "templates"@ {
        Some(ResourceType::Template)
    } else if s == "interface"@ || s == "interfaces"@ {
        Some(ResourceType::Interface)
    } else {
        None
    }
}

/// Parses a resource type.
pub fn parse_resource_type(s: &str) -> (r: Option<ResourceType>)
    ensures
        r == resource_type_of(s@),
{
    if str_eq(s, "skill") || str_eq(s, "skills") {
        Some(ResourceType::Skill)
    } else if str_eq(s, "template") || str_eq(s, "templates") {
        Some(ResourceType::Template)
    } else if str_eq(s, "interface") || str_eq(s, "interfaces") {
        Some(ResourceType::Interface)
    } else {
        None
    }
}

/// The answer for an unknown resource type: `400` (JSON).
pub fn invalid_resource_type() -> (e: ApiError)
    ensures
        is_error(e, 400, "invalid resource type"@, true),
{
    ApiError::json(400, "invalid resource type")
}

/// A catalog item as the store keeps it.
#[derive(Debug, Clone)]
pub struct CatalogItem {
    pub id: String,
    pub org_id: String,
    pub resource_type: ResourceType,
    /// The resource type as its text form displays it.
    pub resource_type_name: String,
    pub name: String,
    pub description: String,
    pub created_at: String,
}

/// A catalog item as the API returns it.
#[derive(Debug, Clone)]
pub struct CatalogItemResponse {
    pub id: String,
    pub resource_type: String,
    pub name: String,
    pub description: String,
    pub created_at: String,
}

/// Body of `POST /api/orgs/{org_id}/catalog`.
#[derive(Debug, Clone)]
pub struct PublishCatalogItemRequest {
    pub resource_type: ResourceType,
    pub resource_type_name: String,
    pub name: String,
    pub description: String,
}

/// The API form of a catalog item.
pub fn item_to_response(item: &CatalogItem) -> (r: CatalogItemResponse)
    ensures
        r.id@ == item.id@ && r.resource_type@ == item.resource_type_name@ && r.name@ == item.name@
            && r.description@ == item.description@ && r.created_at@ == item.created_at@,
{
    CatalogItemResponse {
        id: item.id.clone(),
        resource_type: item.resource_type_name.clone(),
        name: item.name.clone(),
        description: item.description.clone(),
        created_at: item.created_at.clone(),
    }
}

/// The item that publishing creates, once the caller passed the access
/// check: a name is required (`400`, JSON); the id is `ci_` and a fresh
/// UUID.
pub fn plan_publish(org: &str, body: PublishCatalogItemRequest, new_id: u128, now: &str) -> (r:
    Result<CatalogItem, ApiError>)
    ensures
        body.name@.len() == 0 ==> r is Err && is_error(r->Err_0, 400, "name is required"@, true),
        body.name@.len() > 0 ==> r is Ok && {
            let i = r->Ok_0;
            &&& i.id@ == "ci_"@ + uuid_text(new_id)
            &&& i.org_id@ == org@
            &&& i.resource_type == body.resource_type
            &&& i.resource_type_name == body.resource_type_name
            &&& i.name == body.name
            &&& i.description == body.description
            &&& i.created_at@ == now@
        },
{
    if body.name.as_str().is_empty() {
        return Err(ApiError::json(400, "name is required"));
    }
    let mut id = to_owned_string("ci_");
    let u = uuid_to_string(new_id);
    id.append(u.as_str());
    Ok(
        CatalogItem {
            id,
            org_id: to_owned_string(org),
            resource_type: body.resource_type,
            resource_type_name: body.resource_type_name,
            name: body.name,
            description: body.description,
            created_at: to_owned_string(now),
        },
    )
}

/// A subscription of a space to a catalog item.
#[derive(Debug, Clone)]
pub struct SubscriptionResponse {
    pub id: String,
    pub catalog_item_id: String,
    pub created_at: String,
}

/// Body of `POST .../subscriptions`.
#[derive(Debug, Clone)]
pub struct CreateSubscriptionRequest {
    pub catalog_item_id: String,
}

/// The subscription that subscribing creates: id `sub_` and a fresh UUID.
pub fn new_subscription(body: CreateSubscriptionRequest, new_id: u128, now: &str) -> (r:
    SubscriptionResponse)
    ensures
        r.id@ == "sub_"@ + uuid_text(new_id),
        r.catalog_item_id == body.catalog_item_id,
        r.created_at@ == now@,
{
    let mut id = to_owned_string("sub_");
    let u = uuid_to_string(new_id);
    id.append(u.as_str());
    SubscriptionResponse {
        id,
        catalog_item_id: body.catalog_item_id,
        created_at: to_owned_string(now),
    }
}

// -- Interfaces and bindings -------------------------------------------------------------------

/// An interface instance of a space, as the API returns it.
#[derive(Debug)]
pub struct InterfaceInstanceResponse {
    pub id: String,
    pub space_id: String,
    pub interface_type: String,
    pub config: serde_json::Value,
    pub created_at: String,
}

/// The checks of an interface creation once the caller passed the access
/// check: an interface type is required (`400`, JSON). On success, the new
/// instance's id: `ii_` and a fresh UUID.
pub fn plan_interface(interface_type: &str, new_id: u128) -> (r: Result<String, ApiError>)
    ensures
        interface_type@.len() == 0 ==> r is Err && is_error(
            r->Err_0,
            400,
            "interface_type is required"@,
            true,
        ),
        interface_type@.len() > 0 ==> r is Ok && r->Ok_0@ == "ii_"@ + uuid_text(new_id),
{
    if interface_type.is_empty() {
        return Err(ApiError::json(400, "interface_type is required"));
    }
    let mut id = to_owned_string("ii_");
    let u = uuid_to_string(new_id);
    id.append(u.as_str());
    Ok(id)
}

/// A binding of a persona to an interface instance.
#[derive(Debug, Clone)]
pub struct BindingResponse {
    pub id: String,
    pub persona_id: String,
    pub interface_instance_id: String,
    pub created_at: String,
}

/// Body of `POST .../bindings`.
#[derive(Debug, Clone)]
pub struct CreateBindingRequest {
    pub persona_id: String,
    pub interface_instance_id: String,
}

/// The checks of a binding creation once the caller passed the access
/// check: persona and interface instance are required (`400`).
pub fn check_binding_request(body: &CreateBindingRequest) -> (r: Result<(), ApiError>)
    ensures
        (body.persona_id@.len() == 0 || body.interface_instance_id@.len() == 0) ==> r is Err
            && is_error(r->Err_0, 400, "persona_id and interface_instance_id are required"@, false),
        body.persona_id@.len() > 0 && body.interface_instance_id@.len() > 0 ==> r is Ok,
{
    if body.persona_id.as_str().is_empty() || body.interface_instance_id.as_str().is_empty() {
        return Err(ApiError::text(400, "persona_id and interface_instance_id are required"));
    }
    Ok(())
}

/// Whether a record's organisation and space are the request's.
pub fn same_place(rec_org: &str, rec_space: &str, org: &str, space: &str) -> (r: bool)
    ensures
        r == (rec_org@ == org@ && rec_space@ == space@),
{
    str_eq(rec_org, org) && str_eq(rec_space, space)
}

/// The binding that a creation writes: id `bind_` and a fresh UUID.
pub fn new_binding(body: CreateBindingRequest, new_id: u128, now: &str) -> (r: BindingResponse)
    ensures
        r.id@ == "bind_"@ + uuid_text(new_id),
        r.persona_id == body.persona_id,
        r.interface_instance_id == body.interface_instance_id,
        r.created_at@ == now@,
{
    let mut id = to_owned_string("bind_");
    let u = uuid_to_string(new_id);
    id.append(u.as_str());
    BindingResponse {
        id,
        persona_id: body.persona_id,
        interface_instance_id: body.interface_instance_id,
        created_at: to_owned_string(now),
    }
}

} // verus!
