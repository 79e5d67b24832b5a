use web_ui::http::{fresh_uuid, now_rfc3339, parse_path_id};

#[test]
fn fresh_uuids_are_random_version_4() {
    let a = fresh_uuid().unwrap();
    let b = fresh_uuid().unwrap();
    assert_ne!(a, b);
    let text = uuid::Uuid::from_u128(a).to_string();
    assert_eq!(text.as_bytes()[14], b'4');
    assert_eq!(parse_path_id(&text, "bad").unwrap(), a);
}

#[test]
fn creation_times_are_rfc3339() {
    let t = now_rfc3339().unwrap();
    assert!(chrono::DateTime::parse_from_rfc3339(&t).is_ok());
}

#[test]
fn fresh_uuids_carry_version_and_variant_bits() {
    for _ in 0..32 {
        let u = fresh_uuid().unwrap();
        assert_eq!((u >> 76) & 0xf, 4);
        assert_eq!((u >> 62) & 0x3, 2);
    }
}

#[test]
fn creation_times_are_utc_with_colon_offset() {
    let t = now_rfc3339().unwrap();
    assert!(t.ends_with("+00:00"));
    let b = t.as_bytes();
    assert_eq!(b[4], b'-');
    assert_eq!(b[7], b'-');
    assert_eq!(b[10], b'T');
    assert_eq!(b[13], b':');
    assert_eq!(b[16], b':');
    let frac = t.len() - 25;
    assert!(frac == 0 || frac == 4 || frac == 7 || frac == 10);
}
