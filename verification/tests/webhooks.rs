use web_ui::webhooks::{
    check_create_webhook, compute_signature, generate_secret, hex_encode, is_private_ip,
    merge_webhook_update, signature_header, to_response, validate_webhook_url, verify_outcome,
    CreateWebhookRequest, IpAddress, UpdateWebhookRequest, WebhookRecord,
};

#[test]
fn generate_secret_is_64_hex_chars() {
    let s = generate_secret().unwrap();
    assert_eq!(s.len(), 64);
    assert!(s.chars().all(|c| c.is_ascii_hexdigit()));
    // Sanity: two calls should not collide.
    assert_ne!(s, generate_secret().unwrap());
}

#[test]
fn compute_signature_is_deterministic_and_64_chars() {
    let s1 = compute_signature("secret", "body");
    let s2 = compute_signature("secret", "body");
    assert_eq!(s1, s2);
    assert_eq!(s1.len(), 64);
    assert!(s1.chars().all(|c| c.is_ascii_hexdigit()));
    // Different inputs produce different signatures.
    assert_ne!(s1, compute_signature("other", "body"));
    assert_ne!(s1, compute_signature("secret", "different"));
}

#[test]
fn signature_matches_a_known_hmac_sha256() {
    assert_eq!(
        compute_signature("key", "The quick brown fox jumps over the lazy dog"),
        "f7bc83f430538424b13298e6aa6fb143ef4d59a14946175997479dbc2d1a3cd8"
    );
    assert_eq!(
        signature_header("key", "The quick brown fox jumps over the lazy dog"),
        "sha256=f7bc83f430538424b13298e6aa6fb143ef4d59a14946175997479dbc2d1a3cd8"
    );
    assert_eq!(hex_encode(&[0x00, 0x0f, 0xa5, 0xff]), "000fa5ff");
}

#[test]
fn validate_webhook_url_accepts_public_https() {
    assert!(validate_webhook_url("https://example.com/hook").is_ok());
    assert!(validate_webhook_url("http://example.com/hook").is_ok());
}

#[test]
fn validate_webhook_url_rejects_loopback_hostnames() {
    for url in ["http://localhost/x", "http://127.0.0.1/x", "http://[::1]/x"] {
        assert!(validate_webhook_url(url).is_err(), "{url} should be rejected");
    }
    assert_eq!(
        validate_webhook_url("http://LocalHost/x").unwrap_err(),
        "Loopback addresses are not allowed"
    );
}

#[test]
fn validate_webhook_url_rejects_private_ipv4_ranges() {
    for url in [
        "http://10.0.0.1/x",
        "http://192.168.1.1/x",
        "http://172.16.0.1/x",
        "http://169.254.1.1/x", // link-local
    ] {
        assert!(validate_webhook_url(url).is_err(), "{url} should be rejected");
    }
    assert_eq!(
        validate_webhook_url("http://10.0.0.1/x").unwrap_err(),
        "Private/reserved IP address 10.0.0.1 is not allowed"
    );
    assert_eq!(
        validate_webhook_url("http://[fe80::1]/x").unwrap_err(),
        "Private/reserved IP address fe80::1 is not allowed"
    );
    assert!(validate_webhook_url("http://8.8.8.8/x").is_ok());
}

#[test]
fn validate_webhook_url_rejects_non_http_schemes() {
    for url in ["ftp://example.com", "file:///tmp/etc", "javascript:alert(1)"] {
        assert!(validate_webhook_url(url).is_err(), "{url} should be rejected");
    }
    assert_eq!(
        validate_webhook_url("ftp://example.com").unwrap_err(),
        "Unsupported scheme 'ftp': only http and https are allowed"
    );
}

#[test]
fn validate_webhook_url_rejects_malformed_urls() {
    assert!(validate_webhook_url("not-a-url").is_err());
    // Scheme-only with no host is rejected.
    assert!(validate_webhook_url("http://").is_err());
    assert!(validate_webhook_url("not-a-url").unwrap_err().starts_with("Invalid URL: "));
}

#[test]
fn is_private_ip_classifies_correctly() {
    assert!(is_private_ip(IpAddress::V4([10, 0, 0, 1])));
    assert!(is_private_ip(IpAddress::V4([192, 168, 1, 1])));
    assert!(is_private_ip(IpAddress::V4([127, 0, 0, 1])));
    assert!(is_private_ip(IpAddress::V4([255, 255, 255, 255])));
    assert!(is_private_ip(IpAddress::V6([0, 0, 0, 0, 0, 0, 0, 1])));
    assert!(is_private_ip(IpAddress::V6([0xfe80, 0, 0, 0, 0, 0, 0, 1])));
    assert!(is_private_ip(IpAddress::V6([0xfc00, 0, 0, 0, 0, 0, 0, 1])));
    assert!(!is_private_ip(IpAddress::V4([8, 8, 8, 8])));
    assert!(!is_private_ip(IpAddress::V4([172, 32, 0, 1])));
    assert!(!is_private_ip(IpAddress::V6([0x2606, 0x4700, 0, 0, 0, 0, 0, 0x1111])));
}

#[test]
fn create_webhook_invalid_url_returns_400() {
    let body = CreateWebhookRequest {
        name: "n".into(),
        url: "ftp://x".into(),
        event_types: vec![],
        active: None,
    };
    let e = check_create_webhook(&body).unwrap_err();
    assert_eq!(e.status, 400);
    assert!(e.json);
    let blank = CreateWebhookRequest { name: "  ".into(), ..body };
    assert_eq!(check_create_webhook(&blank).unwrap_err().message, "Name cannot be empty");
}

fn stored() -> WebhookRecord {
    WebhookRecord {
        id: "w1".into(),
        name: "old".into(),
        url: "http://10.0.0.1/legacy".into(),
        secret: "s".into(),
        event_types: vec!["turn.complete".into()],
        active: true,
        verified_at: None,
        created_at: "t".into(),
        updated_at: "t".into(),
    }
}

#[test]
fn update_merges_given_fields() {
    let empty = UpdateWebhookRequest { name: None, url: None, event_types: None, active: None };
    let w = merge_webhook_update(stored(), empty).unwrap();
    assert_eq!((w.name.as_str(), w.url.as_str(), w.active), ("old", "http://10.0.0.1/legacy", true));
    let patch = UpdateWebhookRequest {
        name: Some("new".into()),
        url: Some("https://example.com/h".into()),
        event_types: None,
        active: Some(false),
    };
    let w = merge_webhook_update(stored(), patch).unwrap();
    assert_eq!((w.name.as_str(), w.url.as_str(), w.active), ("new", "https://example.com/h", false));
    assert_eq!(w.event_types, vec!["turn.complete".to_string()]);
    let bad = UpdateWebhookRequest { name: None, url: Some("http://localhost".into()), event_types: None, active: None };
    assert_eq!(merge_webhook_update(stored(), bad).unwrap_err().status, 400);
    assert_eq!(to_response(stored()).url, "http://10.0.0.1/legacy");
}

#[test]
fn verify_reports_remote_status() {
    let r = verify_outcome(Ok((200, "200 OK".into())));
    assert!(r.success);
    assert_eq!(r.detail, "Remote responded with 200 OK");
    let r = verify_outcome(Ok((404, "404 Not Found".into())));
    assert!(!r.success);
    let r = verify_outcome(Err("refused".into()));
    assert!(!r.success);
    assert_eq!(r.detail, "Connection error: refused");
}

#[test]
fn validate_webhook_url_judges_ipv4_mapped_hosts_by_their_ipv4_part() {
    for url in [
        "http://[::ffff:127.0.0.1]/x",
        "http://[::ffff:10.1.2.3]/x",
        "http://[::ffff:169.254.0.1]/x",
        "http://[::ffff:192.168.0.9]/x",
    ] {
        assert!(validate_webhook_url(url).is_err(), "{url} should be rejected");
    }
    assert_eq!(
        validate_webhook_url("http://[::ffff:127.0.0.1]/x").unwrap_err(),
        "Private/reserved IP address ::ffff:7f00:1 is not allowed"
    );
    assert!(validate_webhook_url("http://[::ffff:8.8.8.8]/x").is_ok());
    assert!(is_private_ip(IpAddress::V6([0, 0, 0, 0, 0, 0xffff, 0x7f00, 1])));
    assert!(!is_private_ip(IpAddress::V6([0, 0, 0, 0, 0, 0xffff, 0x0808, 0x0808])));
}
