use web_ui::access::{can_manage_members, parse_role, role_to_str, Caller, Role};
use web_ui::spaces::{
    apply_org_update, apply_space_update, check_get_org, check_space_access, deletion_result,
    member_entry, org_list, plan_create_org, plan_create_space, plan_membership, space_in_org,
    space_list, CreateOrgRequest, CreateSpaceRequest, Membership, OrgRecord, SpaceOp, SpaceRecord,
    UpdateOrgRequest, UpdateSpaceRequest,
};
use web_ui::tenancy::{
    check_binding_request, check_owner, check_scoped, new_binding, parse_resource_type,
    plan_interface, plan_publish, CreateBindingRequest, PublishCatalogItemRequest, ResourceType,
    ScopedOp,
};
use web_ui::users::{
    apply_user_update, check_create_user, check_email_free, check_user_access, new_user,
    password_to_hash, CreateUserRequest, UpdateUserRequest, UserOp,
};

fn admin() -> Caller {
    Caller {
        user_id: "admin".into(),
        org_id: "org_1".into(),
        org_admin: true,
        space_roles: vec![("default".into(), Role::OrgAdmin)],
    }
}

fn member() -> Caller {
    Caller {
        user_id: "alice".into(),
        org_id: "org_1".into(),
        org_admin: false,
        space_roles: vec![("eng".into(), Role::Member)],
    }
}

fn space_admin() -> Caller {
    Caller {
        user_id: "bob".into(),
        org_id: "org_1".into(),
        org_admin: false,
        space_roles: vec![("ops".into(), Role::Viewer), ("eng".into(), Role::SpaceAdmin)],
    }
}

#[test]
fn roles_parse_and_print() {
    assert_eq!(parse_role("org-admin"), Some(Role::OrgAdmin));
    assert_eq!(parse_role("SpaceAdmin"), Some(Role::SpaceAdmin));
    assert_eq!(parse_role("viewer"), Some(Role::Viewer));
    assert_eq!(parse_role("owner"), None);
    for r in [Role::OrgAdmin, Role::SpaceAdmin, Role::Member, Role::Viewer] {
        assert_eq!(parse_role(role_to_str(r)), Some(r));
    }
    assert_eq!(space_admin().role_in("eng"), Some(Role::SpaceAdmin));
    assert_eq!(space_admin().role_in("none"), None);
}

#[test]
fn member_cannot_create_space() {
    let e = check_space_access(&member(), "org_1", "", SpaceOp::CreateSpace).unwrap_err();
    assert_eq!((e.status, e.message.as_str()), (403, "org admin required"));
    assert!(check_space_access(&admin(), "org_1", "", SpaceOp::CreateSpace).is_ok());
}

#[test]
fn delete_space_requires_admin() {
    assert_eq!(check_space_access(&member(), "org_1", "eng", SpaceOp::DeleteSpace).unwrap_err().status, 403);
}

#[test]
fn other_organisations_are_refused() {
    let e = check_space_access(&admin(), "org_2", "eng", SpaceOp::ListSpaces).unwrap_err();
    assert_eq!(e.message, "access denied");
    assert_eq!(check_user_access(&admin(), "org_2", "x", UserOp::Get).unwrap_err().message, "access denied");
    assert_eq!(check_scoped(&admin(), "org_2", "eng", ScopedOp::Read, true).unwrap_err().status, 403);
}

#[test]
fn member_cannot_add_members() {
    assert!(!can_manage_members(&member(), "eng"));
    assert!(can_manage_members(&space_admin(), "eng"));
    let e = check_space_access(&member(), "org_1", "eng", SpaceOp::ManageMembers).unwrap_err();
    assert_eq!(e.message, "space admin or org admin required");
    assert!(check_space_access(&member(), "org_1", "eng", SpaceOp::ListMembers).is_ok());
    assert!(check_space_access(&member(), "org_1", "ops", SpaceOp::ListMembers).is_err());
}

#[test]
fn update_member_role() {
    let m = plan_membership("alice".into(), "eng", "space-admin", "t").unwrap();
    assert_eq!(m.role, Role::SpaceAdmin);
    let e = member_entry(m);
    assert_eq!(e.role, "space-admin");
    assert_eq!(plan_membership("alice".into(), "eng", "boss", "t").unwrap_err().message, "invalid role");
    let m = Membership { user_id: "u".into(), space_id: "s".into(), role: Role::Viewer, created_at: "t".into() };
    assert_eq!(member_entry(m).role, "viewer");
}

#[test]
fn remove_member_results() {
    assert!(deletion_result(Ok(true), "membership not found", "failed to remove member").is_ok());
    assert_eq!(deletion_result(Ok(false), "membership not found", "x").unwrap_err().status, 404);
    assert_eq!(deletion_result(Err(()), "x", "failed to remove member").unwrap_err().message, "failed to remove member");
}

fn org() -> OrgRecord {
    OrgRecord {
        id: "org_1".into(),
        name: "Acme".into(),
        slug: "acme".into(),
        auth_mode: "password".into(),
        created_at: "t0".into(),
        updated_at: "t0".into(),
    }
}

#[test]
fn create_and_get_org() {
    let o = plan_create_org(&admin(), CreateOrgRequest { name: "N".into(), slug: "n".into(), auth_mode: None }, 1, "now").unwrap();
    assert_eq!(o.id, "org_00000000-0000-0000-0000-000000000001");
    assert_eq!(o.auth_mode, "password");
    assert!(check_get_org(&member(), "org_1").is_ok());
    assert!(check_get_org(&member(), "org_2").is_err());
    assert!(check_get_org(&admin(), "org_2").is_ok());
    assert_eq!(org_list(Some(org())).len(), 1);
    assert!(org_list(None).is_empty());
}

#[test]
fn member_cannot_create_org() {
    let r = plan_create_org(&member(), CreateOrgRequest { name: "N".into(), slug: "n".into(), auth_mode: None }, 1, "now");
    assert_eq!(r.unwrap_err().status, 403);
    let r = plan_create_org(&admin(), CreateOrgRequest { name: "".into(), slug: "n".into(), auth_mode: None }, 1, "now");
    assert_eq!(r.unwrap_err().message, "name and slug are required");
}

#[test]
fn update_org_name() {
    let o = apply_org_update(&admin(), org(), UpdateOrgRequest { name: Some("New".into()), auth_mode: None }, "t1").unwrap();
    assert_eq!((o.name.as_str(), o.auth_mode.as_str(), o.updated_at.as_str()), ("New", "password", "t1"));
    assert!(apply_org_update(&member(), org(), UpdateOrgRequest { name: None, auth_mode: None }, "t1").is_err());
}

fn space(id: &str, org: &str) -> SpaceRecord {
    SpaceRecord {
        id: id.into(),
        org_id: org.into(),
        name: id.into(),
        slug: id.into(),
        created_at: "t".into(),
        updated_at: "t".into(),
    }
}

#[test]
fn create_and_list_spaces() {
    let s = plan_create_space("org_1", CreateSpaceRequest { name: "Eng".into(), slug: "eng".into() }, 2, "t").unwrap();
    assert_eq!(s.id, "spc_00000000-0000-0000-0000-000000000002");
    let listed = space_list(vec![Some(space("a", "org_1")), None, Some(space("b", "org_2")), Some(space("c", "org_1"))], "org_1");
    assert_eq!(listed.iter().map(|s| s.id.as_str()).collect::<Vec<_>>(), vec!["a", "c"]);
    assert_eq!(space_in_org(Ok(Some(space("a", "org_2"))), "org_1").unwrap_err().status, 404);
    assert_eq!(space_in_org(Err(()), "org_1").unwrap_err().status, 500);
    let s = apply_space_update(space("a", "org_1"), UpdateSpaceRequest { name: Some("A".into()) }, "t2");
    assert_eq!((s.name.as_str(), s.updated_at.as_str()), ("A", "t2"));
}

#[test]
fn create_and_list_users() {
    let body = CreateUserRequest { email: "e@x".into(), name: "E".into(), password: Some("".into()) };
    assert!(check_create_user(&body).is_ok());
    assert!(password_to_hash(&body).is_none());
    let u = new_user("org_1", body, String::new(), 3, "t");
    assert_eq!(u.id, "usr_00000000-0000-0000-0000-000000000003");
    assert!(u.idp_issuer.is_none());
    let u = apply_user_update(u, UpdateUserRequest { name: None, email: Some("f@x".into()) }, "t2");
    assert_eq!(u.email, "f@x");
}

#[test]
fn member_cannot_list_users() {
    assert_eq!(check_user_access(&member(), "org_1", "", UserOp::List).unwrap_err().message, "org admin required");
    assert!(check_user_access(&member(), "org_1", "alice", UserOp::Get).is_ok());
    assert!(check_user_access(&member(), "org_1", "bob", UserOp::Update).is_err());
}

#[test]
fn duplicate_email_returns_409() {
    assert_eq!(check_email_free(Ok(true)).unwrap_err().status, 409);
    assert!(check_email_free(Ok(false)).is_ok());
    assert_eq!(check_email_free(Err(())).unwrap_err().status, 500);
}

#[test]
fn delete_user_requires_admin() {
    assert_eq!(check_user_access(&member(), "org_1", "bob", UserOp::Delete).unwrap_err().status, 403);
}

#[test]
fn member_cannot_publish() {
    let e = check_scoped(&member(), "org_1", "", ScopedOp::ChangeCatalog, true).unwrap_err();
    assert_eq!((e.status, e.message.as_str(), e.json), (403, "org admin required", true));
}

#[test]
fn publish_and_list_catalog() {
    assert_eq!(parse_resource_type("skills"), Some(ResourceType::Skill));
    assert_eq!(parse_resource_type("widget"), None);
    let body = PublishCatalogItemRequest {
        resource_type: ResourceType::Skill,
        resource_type_name: "skill".into(),
        name: "web-fetch".into(),
        description: "Fetch web pages".into(),
    };
    let item = plan_publish("org_1", body, 4, "t").unwrap();
    assert_eq!(item.id, "ci_00000000-0000-0000-0000-000000000004");
}

#[test]
fn cross_tenant_catalog_denied() {
    let e = check_owner(Ok(Some(false)), "access denied", "catalog item not found", true).unwrap_err();
    assert_eq!(e.status, 403);
    let e = check_owner(Ok(None), "access denied", "catalog item not found", true).unwrap_err();
    assert_eq!((e.status, e.message.as_str()), (404, "catalog item not found"));
    assert!(check_owner(Ok(Some(true)), "a", "b", true).is_ok());
}

#[test]
fn create_binding_checks() {
    let body = CreateBindingRequest { persona_id: "".into(), interface_instance_id: "ii_1".into() };
    assert_eq!(check_binding_request(&body).unwrap_err().status, 400);
    let body = CreateBindingRequest { persona_id: "p".into(), interface_instance_id: "ii_1".into() };
    assert!(check_binding_request(&body).is_ok());
    let b = new_binding(body, 5, "t");
    assert_eq!(b.id, "bind_00000000-0000-0000-0000-000000000005");
    assert_eq!(plan_interface("", 1).unwrap_err().message, "interface_type is required");
    assert_eq!(plan_interface("slack", 1).unwrap(), "ii_00000000-0000-0000-0000-000000000001");
    assert!(check_scoped(&member(), "org_1", "eng", ScopedOp::ChangeSpace, false).is_err());
    assert!(check_scoped(&space_admin(), "org_1", "eng", ScopedOp::ChangeSpace, false).is_ok());
}
