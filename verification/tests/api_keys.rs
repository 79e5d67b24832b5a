use web_ui::api_keys::{
    check_key_name, check_scopes, new_key_id, requested_scopes, revoke_result, split_scope,
    CreateApiKeyRequest,
};

#[test]
fn key_needs_a_name() {
    let body = CreateApiKeyRequest { name: "".into(), scopes: None };
    let e = check_key_name(&body).unwrap_err();
    assert_eq!((e.status, e.message.as_str()), (400, "name is required"));
    let body = CreateApiKeyRequest { name: "ci".into(), scopes: None };
    assert!(check_key_name(&body).is_ok());
    assert!(requested_scopes(&body).is_empty());
    let body = CreateApiKeyRequest { name: "ci".into(), scopes: Some(vec!["chat:read".into()]) };
    assert_eq!(requested_scopes(&body), &["chat:read".to_string()]);
}

#[test]
fn scopes_split_at_first_colon() {
    assert_eq!(split_scope("chat:read"), Some(("chat".to_string(), "read".to_string())));
    assert_eq!(split_scope("a:b:c"), Some(("a".to_string(), "b:c".to_string())));
    assert_eq!(split_scope(":x"), Some(("".to_string(), "x".to_string())));
    assert_eq!(split_scope("nocolon"), None);
}

#[test]
fn first_bad_scope_is_reported() {
    let scopes = vec!["chat:read".to_string(), "bogus".to_string()];
    let e = check_scopes(&scopes, &[true, true], &[true, true]).unwrap_err();
    assert_eq!((e.status, e.message.as_str()), (400, "invalid scope format: bogus"));

    let scopes = vec!["nope:read".to_string(), "chat:fly".to_string()];
    let e = check_scopes(&scopes, &[false, true], &[true, false]).unwrap_err();
    assert_eq!(e.message, "invalid resource in scope: nope:read");
    let e = check_scopes(&scopes, &[true, true], &[true, false]).unwrap_err();
    assert_eq!(e.message, "invalid action in scope: chat:fly");
    assert!(check_scopes(&scopes, &[true, true], &[true, true]).is_ok());
    assert!(check_scopes(&[], &[], &[]).is_ok());
}

#[test]
fn key_ids_and_revocation() {
    assert_eq!(new_key_id(0x0123456789abcdef0123456789abcdef), "key_01234567-89ab-cdef-0123-456789abcdef");
    assert!(revoke_result(Ok(true)).is_ok());
    let e = revoke_result(Ok(false)).unwrap_err();
    assert_eq!((e.status, e.message.as_str()), (404, "API key not found"));
    assert_eq!(revoke_result(Err(())).unwrap_err().status, 500);
}

#[test]
fn split_scope_rejoins_to_the_scope() {
    for s in ["chat:read", "a:b:c", ":x", "x:"] {
        let (a, b) = split_scope(s).unwrap();
        assert_eq!(format!("{a}:{b}"), s);
        assert!(!a.contains(':'));
    }
}
