use web_ui::account::{
    apply_profile_update, check_current_password, check_email_collision, check_new_password,
    current_user, managed_by_idp, org_is_oidc, password_change_result, requested_email_change,
    validate_email, with_new_password, ChangePasswordRequest,
};
use web_ui::spaces::OrgRecord;
use web_ui::users::{user_in_org, UserRecord};

fn alice() -> UserRecord {
    UserRecord {
        id: "u1".into(),
        org_id: "o1".into(),
        email: "alice@test.local".into(),
        name: "Alice".into(),
        password_hash: "hash".into(),
        idp_issuer: None,
        idp_subject: None,
        created_at: "t0".into(),
        updated_at: "t0".into(),
    }
}

fn org(mode: &str) -> OrgRecord {
    OrgRecord {
        id: "o1".into(),
        name: "Org".into(),
        slug: "org".into(),
        auth_mode: mode.into(),
        created_at: "t0".into(),
        updated_at: "t0".into(),
    }
}

#[test]
fn validate_email_rules() {
    assert!(validate_email("a@b").is_ok());
    assert_eq!(validate_email("").unwrap_err(), "email must not be empty");
    assert_eq!(validate_email("nobody").unwrap_err(), "email must contain '@'");
}

#[test]
fn oidc_orgs_are_recognised() {
    assert_eq!(org_is_oidc(Ok(Some(org("oidc")))).unwrap(), true);
    assert_eq!(org_is_oidc(Ok(Some(org("password")))).unwrap(), false);
    let e = org_is_oidc(Ok(None)).unwrap_err();
    assert_eq!((e.status, e.message.as_str(), e.json), (500, "org not found", true));
    let e = org_is_oidc(Err(())).unwrap_err();
    assert_eq!((e.status, e.message.as_str()), (500, "internal server error"));
}

#[test]
fn idp_refusal_names_the_issuer() {
    let e = managed_by_idp(Some("https://idp.example".into()));
    assert_eq!(e.status, 409);
    assert_eq!(e.message, "account managed by identity provider https://idp.example");
    let e = managed_by_idp(None);
    assert_eq!(e.message, "account managed by identity provider your identity provider");
}

#[test]
fn current_user_lookup_outcomes() {
    assert_eq!(current_user(Ok(Some(alice()))).unwrap().email, "alice@test.local");
    assert_eq!(current_user(Ok(None)).unwrap_err().status, 404);
    assert_eq!(current_user(Err(())).unwrap_err().status, 500);
}

#[test]
fn email_change_detection() {
    let u = alice();
    assert!(requested_email_change(&u, None).unwrap().is_none());
    assert!(requested_email_change(&u, Some("alice@test.local")).unwrap().is_none());
    assert_eq!(
        requested_email_change(&u, Some("new@test.local")).unwrap().as_deref(),
        Some("new@test.local")
    );
    let e = requested_email_change(&u, Some("bad")).unwrap_err();
    assert_eq!((e.status, e.message.as_str()), (400, "email must contain '@'"));
}

#[test]
fn email_collision_only_with_other_users() {
    assert!(check_email_collision(Ok(None), "u1").is_ok());
    assert!(check_email_collision(Ok(Some("u1".into())), "u1").is_ok());
    let e = check_email_collision(Ok(Some("u2".into())), "u1").unwrap_err();
    assert_eq!((e.status, e.message.as_str()), (409, "email already exists in this org"));
    assert_eq!(check_email_collision(Err(()), "u1").unwrap_err().status, 500);
}

#[test]
fn profile_update_applies_name_and_email() {
    let (u, resp) =
        apply_profile_update(alice(), Some("Al".into()), Some("al@test.local".into()), "t1");
    assert_eq!(u.name, "Al");
    assert_eq!(u.email, "al@test.local");
    assert_eq!(u.updated_at, "t1");
    assert_eq!(u.password_hash, "hash");
    assert_eq!(resp.user.email, "al@test.local");
    assert_eq!(resp.previous_email.as_deref(), Some("alice@test.local"));

    let (u, resp) = apply_profile_update(alice(), None, None, "t2");
    assert_eq!(u.name, "Alice");
    assert_eq!(u.email, "alice@test.local");
    assert!(resp.previous_email.is_none());
}

#[test]
fn password_change_steps() {
    let empty = ChangePasswordRequest { current_password: "x".into(), new_password: "".into() };
    let e = check_new_password(&empty).unwrap_err();
    assert_eq!((e.status, e.message.as_str()), (400, "new password must not be empty"));
    let ok = ChangePasswordRequest { current_password: "x".into(), new_password: "y".into() };
    assert!(check_new_password(&ok).is_ok());

    assert!(check_current_password(Ok(true)).is_ok());
    let e = check_current_password(Ok(false)).unwrap_err();
    assert_eq!((e.status, e.message.as_str()), (401, "current password is incorrect"));
    assert_eq!(check_current_password(Err(())).unwrap_err().status, 500);

    let u = with_new_password(alice(), "new-hash".into(), "t3");
    assert_eq!(u.password_hash, "new-hash");
    assert_eq!(u.updated_at, "t3");
    assert_eq!(u.email, "alice@test.local");

    assert!(password_change_result(true, true).is_ok());
    assert_eq!(password_change_result(false, true).unwrap_err().message, "failed to update password");
    assert_eq!(
        password_change_result(true, false).unwrap_err().message,
        "password changed but session revocation failed"
    );
}

#[test]
fn a_user_of_another_org_is_not_found() {
    let u = alice();
    assert_eq!(user_in_org(Ok(Some(u.clone())), "o1").unwrap().id, "u1");
    let e = user_in_org(Ok(Some(u)), "o2").unwrap_err();
    assert_eq!((e.status, e.message.as_str()), (404, "user not found"));
    let e = user_in_org(Ok(None), "o1").unwrap_err();
    assert_eq!((e.status, e.message.as_str()), (404, "user not found"));
    let e = user_in_org(Err(()), "o1").unwrap_err();
    assert_eq!((e.status, e.message.as_str()), (500, "internal server error"));
}
