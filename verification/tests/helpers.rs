use web_ui::access::{may_view_space, require_org_admin, require_same_org, Caller, Role};
use web_ui::attachments::join_strings;
use web_ui::auth::{
    is_bearer_header, login_failed, login_html, login_rejected, looks_like_api_key,
    matches_legacy_token, scope_verdict, u64_to_decimal, ScopeVerdict, LOGIN_PAGE_HEAD,
    LOGIN_PAGE_TAIL,
};
use web_ui::conversations::{summarize_all, ConversationRecord};
use web_ui::spaces::found_or;
use web_ui::tenancy::{
    item_to_response, new_subscription, same_place, CatalogItem, CreateSubscriptionRequest,
    ResourceType,
};
use web_ui::text::{chars_of, eq_ignore_ascii_case, str_contains, take_chars, trim_str};
use web_ui::users::{user_summaries, UserRecord};

#[test]
fn text_helpers() {
    assert_eq!(trim_str("  a b \n"), "a b");
    assert_eq!(trim_str("   "), "");
    assert_eq!(take_chars("héllo", 2), "hé");
    assert_eq!(take_chars("hi", 80), "hi");
    assert!(str_contains("UNIQUE constraint", "UNIQUE"));
    assert!(!str_contains("abc", "abd"));
    assert!(eq_ignore_ascii_case(&chars_of("Example.COM"), &chars_of("example.com")));
    assert!(!eq_ignore_ascii_case(&chars_of("a"), &chars_of("ab")));
    assert_eq!(join_strings(&["image/png".to_string(), "image/gif".to_string()], ", "), "image/png, image/gif");
    assert_eq!(join_strings(&[], ", "), "");
}

#[test]
fn decimal_text() {
    assert_eq!(u64_to_decimal(0), "0");
    assert_eq!(u64_to_decimal(86400), "86400");
    assert_eq!(u64_to_decimal(u64::MAX), u64::MAX.to_string());
}

#[test]
fn bearer_helpers() {
    assert!(is_bearer_header("Bearer abc"));
    assert!(!is_bearer_header("bearer abc"));
    assert!(looks_like_api_key("ask_live_123"));
    assert!(!looks_like_api_key("ask_test_123"));
    assert!(matches_legacy_token("t", Some("t")));
    assert!(!matches_legacy_token("t", Some("u")));
    assert!(!matches_legacy_token("t", None));
}

#[test]
fn login_pages() {
    let plain = login_html(None);
    assert_eq!(plain, format!("{LOGIN_PAGE_HEAD}{LOGIN_PAGE_TAIL}"));
    let rejected = login_rejected();
    assert!(rejected.contains(r#"<div class="login-error" id="login-error" role="alert">Invalid token.</div>"#));
    assert!(login_failed().contains("Internal error."));
    assert!(plain.contains(r#"<form method="POST" action="/login" class="login-form">"#));
}

#[test]
fn scope_guard_answers() {
    assert!(matches!(scope_verdict(false, None), ScopeVerdict::Unauthorized));
    assert!(matches!(scope_verdict(true, None), ScopeVerdict::Allowed));
    match scope_verdict(true, Some(("personas", "read", "eng"))) {
        ScopeVerdict::Forbidden(m) => {
            assert_eq!(m, "insufficient permissions: requires personas:read in space eng")
        }
        _ => panic!("expected a refusal"),
    }
}

fn caller(admin: bool) -> Caller {
    Caller {
        user_id: "u1".into(),
        org_id: "o1".into(),
        org_admin: admin,
        space_roles: vec![("s1".into(), Role::Viewer)],
    }
}

#[test]
fn organisation_guards() {
    assert!(require_same_org(&caller(false), "o1").is_ok());
    let e = require_same_org(&caller(false), "o2").unwrap_err();
    assert_eq!((e.status, e.message.as_str()), (403, "access denied"));
    assert!(require_org_admin(&caller(true)).is_ok());
    assert_eq!(require_org_admin(&caller(false)).unwrap_err().message, "org admin required");
    assert!(may_view_space(&caller(false), "s1"));
    assert!(!may_view_space(&caller(false), "s2"));
    assert!(may_view_space(&caller(true), "s2"));
}

#[test]
fn lookups_and_listings() {
    assert_eq!(found_or(Ok(Some(3)), "x").unwrap(), 3);
    let e = found_or::<u8>(Ok(None), "org not found").unwrap_err();
    assert_eq!((e.status, e.message.as_str()), (404, "org not found"));
    assert_eq!(found_or::<u8>(Err(()), "x").unwrap_err().message, "internal server error");

    let convs = vec![
        ConversationRecord { id: 1, agent_id: "a".into(), title: None, created_at: "t".into(), updated_at: "u".into() },
        ConversationRecord { id: 2, agent_id: "a".into(), title: Some("T".into()), created_at: "t".into(), updated_at: "u".into() },
    ];
    let s = summarize_all(&convs);
    assert_eq!((s[0].title.as_str(), s[1].title.as_str()), ("Untitled", "T"));

    let users = vec![UserRecord {
        id: "usr_1".into(),
        org_id: "o1".into(),
        email: "a@b".into(),
        name: "A".into(),
        password_hash: "h".into(),
        idp_issuer: None,
        idp_subject: None,
        created_at: "t".into(),
        updated_at: "t".into(),
    }];
    let s = user_summaries(&users);
    assert_eq!((s[0].id.as_str(), s[0].email.as_str(), s[0].name.as_str()), ("usr_1", "a@b", "A"));
}

#[test]
fn catalog_records() {
    let item = CatalogItem {
        id: "ci_1".into(),
        org_id: "o1".into(),
        resource_type: ResourceType::Skill,
        resource_type_name: "skill".into(),
        name: "n".into(),
        description: "d".into(),
        created_at: "t".into(),
    };
    let r = item_to_response(&item);
    assert_eq!((r.id.as_str(), r.resource_type.as_str(), r.name.as_str()), ("ci_1", "skill", "n"));
    let sub = new_subscription(CreateSubscriptionRequest { catalog_item_id: "ci_1".into() }, 2, "now");
    assert_eq!(sub.id, "sub_00000000-0000-0000-0000-000000000002");
    assert_eq!((sub.catalog_item_id.as_str(), sub.created_at.as_str()), ("ci_1", "now"));
    assert!(same_place("o1", "s1", "o1", "s1"));
    assert!(!same_place("o1", "s2", "o1", "s1"));
}

#[test]
fn trimming_treats_exactly_the_unicode_white_space_characters_as_space() {
    for u in 0u32..=0x10FFFF {
        if let Some(c) = char::from_u32(u) {
            let s = format!("{c}x{c}");
            let want = if c.is_whitespace() { "x".to_string() } else { s.clone() };
            assert_eq!(web_ui::text::trim_str(&s), want, "U+{u:04X}");
        }
    }
}
