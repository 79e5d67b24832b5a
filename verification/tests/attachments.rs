use web_ui::attachments::{
    format_of, is_file_field, new_attachment_meta, not_modified, resize_image, resize_target,
    serve_plan, served_bytes, AttachmentMetaResponse, AttachmentServeParams, FileUpload, ImgFormat,
};

fn supported() -> Vec<String> {
    vec!["image/png".to_string(), "image/jpeg".to_string()]
}

#[test]
fn upload_attachment_rejects_unsupported_mime() {
    let mut up = FileUpload::new();
    assert!(is_file_field(Some("file")));
    up.accept_file(Some("text/plain"), Some("notes.txt"), Some(vec![1, 2]), 1024).unwrap();
    let e = up.finish(false, &supported()).unwrap_err();
    assert_eq!(e.status, 400);
    assert_eq!(e.message, "Unsupported MIME type 'text/plain'. Supported: image/png, image/jpeg");
}

#[test]
fn upload_attachment_succeeds_with_png() {
    let mut up = FileUpload::new();
    up.accept_file(Some("image/png"), None, Some(vec![1, 2, 3]), 1024).unwrap();
    let (bytes, filename, mime) = up.finish(true, &supported()).unwrap();
    assert_eq!(bytes, vec![1, 2, 3]);
    assert_eq!(filename, "attachment");
    assert_eq!(mime, "image/png");
    let meta = new_attachment_meta(5, 6, "default".into(), filename, mime, &bytes, "t".into());
    assert_eq!(meta.size_bytes, 3);
    assert!(meta.message_id.is_none());
    let resp = AttachmentMetaResponse::from_meta(&meta);
    assert_eq!(resp.url, "/api/attachments/00000000-0000-0000-0000-000000000005");
}

#[test]
fn upload_limits_and_missing_file() {
    let mut up = FileUpload::new();
    let e = up.accept_file(None, None, Some(vec![0u8; 11 * 1024 * 1024]), 10 * 1024 * 1024).unwrap_err();
    assert_eq!(e.message, "File too large (max 10 MB)");
    assert_eq!(up.accept_file(None, None, None, 10).unwrap_err().message, "Failed to read file data");
    assert_eq!(up.finish(true, &supported()).unwrap_err().message, "Missing file field");
}

#[test]
fn serve_attachment_returns_bytes_and_cache_headers() {
    let id: u128 = 0x550e8400e29b41d4a716446655440000;
    let plan = serve_plan(id, AttachmentServeParams { w: None, h: None }, true);
    assert!(plan.resize.is_none());
    assert_eq!(plan.etag, "\"550e8400-e29b-41d4-a716-446655440000\"");
}

#[test]
fn serve_attachment_304_on_matching_etag() {
    assert!(not_modified(Some("\"abc\""), "\"abc\""));
    assert!(!not_modified(Some("\"abd\""), "\"abc\""));
    assert!(!not_modified(None, "\"abc\""));
}

#[test]
fn serve_attachment_with_resize_params() {
    let plan = serve_plan(1, AttachmentServeParams { w: Some(100), h: None }, true);
    assert_eq!(plan.resize, Some((100, 0)));
    assert_eq!(plan.etag, "\"00000000-0000-0000-0000-000000000001-100x0\"");
    let plan = serve_plan(1, AttachmentServeParams { w: Some(100), h: None }, false);
    assert!(plan.resize.is_none());
}

#[test]
fn resizing_only_shrinks() {
    assert_eq!(resize_target(50, 50, 100, 0), None);
    assert_eq!(resize_target(200, 50, 100, 0), Some((100, 50)));
    assert_eq!(format_of("image/webp"), Some(ImgFormat::WebP));
    assert_eq!(format_of("image/bmp"), None);
    assert!(resize_image(&[1, 2, 3], "image/bmp", 10, 10).is_none());
    assert!(resize_image(&[1, 2, 3], "image/png", 10, 10).is_none(), "garbage does not decode");
    assert_eq!(served_bytes(vec![1], Some(None)), vec![1]);
    assert_eq!(served_bytes(vec![1], Some(Some(vec![2]))), vec![2]);
}

#[test]
fn small_png_is_served_unchanged() {
    let mut buf = std::io::Cursor::new(Vec::new());
    image::DynamicImage::new_rgb8(4, 4).write_to(&mut buf, image::ImageFormat::Png).unwrap();
    let png = buf.into_inner();
    assert_eq!(resize_image(&png, "image/png", 8, 8), Some(png.clone()));
    let smaller = resize_image(&png, "image/png", 2, 2).unwrap();
    let decoded = image::load_from_memory(&smaller).unwrap();
    assert_eq!((decoded.width(), decoded.height()), (2, 2));
}

#[test]
fn no_box_keeps_every_image() {
    for (w, h) in [(1, 1), (4000, 3000), (0, 0)] {
        assert_eq!(resize_target(w, h, 0, 0), None);
    }
    let (tw, th) = resize_target(300, 200, 0, 100).unwrap();
    assert_eq!((tw, th), (300, 100));
    assert!(300 > tw || 200 > th);
}
