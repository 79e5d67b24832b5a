//! Image attachments: the upload's multipart fields, the checks on the
//! uploaded file, and serving with ETags and on-demand downscaling.
use vstd::prelude::*;

use crate::auth::{decimal, u64_to_decimal};
use crate::http::{is_error, uuid_text, uuid_to_string, ApiError};
use crate::text::{str_eq, to_owned_string};

verus! {

/// What the store keeps about an attachment.
#[derive(Debug, Clone)]
pub struct AttachmentMeta {
    pub id: u128,
    /// The message the attachment belongs to, once it is linked to one.
    pub message_id: Option<u128>,
    pub conversation_id: u128,
    pub agent_id: String,
    pub filename: String,
    pub mime_type: String,
    pub size_bytes: u64,
    /// Creation time, RFC 3339.
    pub created_at: String,
}

/// Attachment metadata as the API returns it.
#[derive(Debug, Clone)]
pub struct AttachmentMetaResponse {
    pub id: u128,
    pub filename: String,
    pub mime_type: String,
    pub size_bytes: u64,
    pub created_at: String,
    /// Where the attachment's content is served.
    pub url: String,
}

/// The URL under which an attachment is served.
pub open spec fn attachment_url(id: u128) -> Seq<char> {
    "/api/attachments/"@ + uuid_text(id)
}

/// The API metadata of a stored attachment.
pub open spec fn meta_response_spec(meta: AttachmentMeta, r: AttachmentMetaResponse) -> bool {
    &&& r.id == meta.id
    &&& r.filename@ == meta.filename@
    &&& r.mime_type@ == meta.mime_type@
    &&& r.size_bytes == meta.size_bytes
    &&& r.created_at@ == meta.created_at@
    &&& r.url@ == attachment_url(meta.id)
}

impl AttachmentMetaResponse {
    /// The API metadata of a stored attachment.
    pub fn from_meta(meta: &AttachmentMeta) -> (r: AttachmentMetaResponse)
        ensures
            meta_response_spec(*meta, r),
    {
        let mut url = to_owned_string("/api/attachments/");
        let id = uuid_to_string(meta.id);
        url.append(id.as_str());
        AttachmentMetaResponse {
            id: meta.id,
            filename: meta.filename.clone(),
            mime_type: meta.mime_type.clone(),
            size_bytes: meta.size_bytes,
            created_at: meta.created_at.clone(),
            url,
        }
    }
}

// -- Upload -------------------------------------------------------------------------

/// The file of an upload as its multipart fields are read. Only the `file`
/// field counts; when it comes more than once, the last one wins.
pub struct FileUpload {
    pub bytes: Option<Vec<u8>>,
    /// Empty until a field gives a content type.
    pub mime_type: String,
    /// `attachment` until a field gives a file name.
    pub filename: String,
}

/// Whether a multipart field is the file field.
pub fn is_file_field(name: Option<&str>) -> (r: bool)
    ensures
        r == (match name {
            Some(n) => n@ == "file"@,
            None => false,
        }),
{
    match name {
        Some(n) => str_eq(n, "file"),
        None => false,
    }
}

/// The message of an upload over the size limit, which it gives in MiB.
pub open spec fn too_large_message(max_size: u64) -> Seq<char> {
    "File too large (max "@ + decimal((max_size / 1048576) as nat) + " MB)"@
}

impl FileUpload {
    /// Nothing read yet.
    pub fn new() -> (r: FileUpload)
        ensures
            r.bytes is None,
            r.mime_type@ == Seq::<char>::empty(),
            r.filename@ == "attachment"@,
    {
        FileUpload { bytes: None, mime_type: String::new(), filename: to_owned_string("attachment") }
    }

    /// Takes one `file` field: its content type and file name, when given,
    /// replace the current ones; its bytes (`None` when they could not be
    /// read) must not exceed `max_size`.
    pub fn accept_file(
        &mut self,
        content_type: Option<&str>,
        file_name: Option<&str>,
        bytes: Option<Vec<u8>>,
        max_size: u64,
    ) -> (r: Result<(), ApiError>)
        ensures
            final(self).mime_type@ == (match content_type {
                Some(ct) => ct@,
                None => old(self).mime_type@,
            }),
            final(self).filename@ == (match file_name {
                Some(n) => n@,
                None => old(self).filename@,
            }),
            bytes is None ==> r is Err && is_error(
                r->Err_0,
                400,
                "Failed to read file data"@,
                false,
            ) && final(self).bytes == old(self).bytes,
            bytes is Some && bytes->0.len() > max_size ==> r is Err && is_error(
                r->Err_0,
                400,
                too_large_message(max_size),
                false,
            ) && final(self).bytes == old(self).bytes,
            bytes is Some && bytes->0.len() <= max_size ==> r is Ok && final(self).bytes == bytes,
    {
        match content_type {
            Some(ct) => {
                self.mime_type = to_owned_string(ct);
            },
            None => {},
        }
        match file_name {
            Some(n) => {
                self.filename = to_owned_string(n);
            },
            None => {},
        }
        match bytes {
            Some(b) => {
                if b.len() as u64 > max_size {
                    let mut msg = to_owned_string("File too large (max ");
                    let mb = u64_to_decimal(max_size / 1048576);
                    msg.append(mb.as_str());
                    msg.append(" MB)");
                    return Err(ApiError { status: 400, message: msg, json: false });
                }
                self.bytes = Some(b);
                Ok(())
            },
            None => Err(ApiError::text(400, "Failed to read file data")),
        }
    }
}

/// `items` joined with `sep` between them.
pub open spec fn joined(items: Seq<Seq<char>>, sep: Seq<char>) -> Seq<char>
    decreases items.len(),
{
    if items.len() == 0 {
        Seq::empty()
    } else if items.len() == 1 {
        items[0]
    } else {
        joined(items.drop_last(), sep) + sep + items.last()
    }
}

/// Joins strings with a separator, as `slice::join` does.
pub fn join_strings(items: &[String], sep: &str) -> (r: String)
    ensures
        r@ == joined(items@.map_values(|s: String| s@), sep@),
{
    let ghost views = items@.map_values(|s: String| s@);
    let mut out = String::new();
    let mut i: usize = 0;
    while i < items.len()
        invariant
            i <= items.len(),
            views == items@.map_values(|s: String| s@),
            out@ == joined(views.take(i as int), sep@),
        decreases items.len() - i,
    {
        if i > 0 {
            out.append(sep);
        }
        out.append(items[i].as_str());
        proof {
            let t = views.take(i + 1);
            assert(t.drop_last() =~= views.take(i as int));
            assert(t.last() == items@[i as int]@);
            if i == 0 {
                assert(views.take(0) =~= Seq::<Seq<char>>::empty());
                assert(out@ =~= joined(t, sep@));
            }
        }
        i = i + 1;
    }
    assert(views.take(items.len() as int) =~= views);
    out
}

/// The message for an upload whose MIME type is not supported.
pub open spec fn unsupported_message(mime: Seq<char>, supported: Seq<Seq<char>>) -> Seq<char> {
    "Unsupported MIME type '"@ + mime + "'. Supported: "@ + joined(supported, ", "@)
}

impl FileUpload {
    /// The file and its metadata once all fields are read: missing or empty
    /// bytes are `400`, and so is a MIME type that is not supported
    /// (`mime_supported`; the message lists `supported`).
    pub fn finish(self, mime_supported: bool, supported: &[String]) -> (r: Result<
        (Vec<u8>, String, String),
        ApiError,
    >)
        ensures
            (self.bytes is None || self.bytes->0.len() == 0) ==> r is Err && is_error(
                r->Err_0,
                400,
                "Missing file field"@,
                false,
            ),
            self.bytes is Some && self.bytes->0.len() > 0 && !mime_supported ==> r is Err
                && is_error(
                r->Err_0,
                400,
                unsupported_message(self.mime_type@, supported@.map_values(|s: String| s@)),
                false,
            ),
            self.bytes is Some && self.bytes->0.len() > 0 && mime_supported ==> r is Ok
                && r->Ok_0.0 == self.bytes->0 && r->Ok_0.1 == self.filename && r->Ok_0.2
                == self.mime_type,
    {
        let bytes = match self.bytes {
            Some(b) => {
                if b.len() == 0 {
                    return Err(ApiError::text(400, "Missing file field"));
                }
                b
            },
            None => {
                return Err(ApiError::text(400, "Missing file field"));
            },
        };
        if !mime_supported {
            let mut msg = to_owned_string("Unsupported MIME type '");
            msg.append(self.mime_type.as_str());
            msg.append("'. Supported: ");
            let list = join_strings(supported, ", ");
            msg.append(list.as_str());
            return Err(ApiError { status: 400, message: msg, json: false });
        }
        Ok((bytes, self.filename, self.mime_type))
    }
}

/// The metadata of a newly uploaded attachment: not yet linked to a message.
pub fn new_attachment_meta(
    id: u128,
    conversation_id: u128,
    agent_id: String,
    filename: String,
    mime_type: String,
    bytes: &Vec<u8>,
    created_at: String,
) -> (r: AttachmentMeta)
    ensures
        r.id == id,
        r.message_id is None,
        r.conversation_id == conversation_id,
        r.agent_id == agent_id,
        r.filename == filename,
        r.mime_type == mime_type,
        r.size_bytes == bytes.len(),
        r.created_at == created_at,
{
    AttachmentMeta {
        id,
        message_id: None,
        conversation_id,
        agent_id,
        filename,
        mime_type,
        size_bytes: bytes.len() as u64,
        created_at,
    }
}

// -- Serving --------------------------------------------------------------------------

/// Query of the serve endpoint: a bounding box to downscale into.
#[derive(Debug, Clone, Copy)]
pub struct AttachmentServeParams {
    /// Desired width in pixels.
    pub w: Option<u32>,
    /// Desired height in pixels.
    pub h: Option<u32>,
}

/// How an attachment is served.
#[derive(Debug, Clone)]
pub struct ServePlan {
    /// Width and height to downscale into, or `None` for the original.
    pub resize: Option<(u32, u32)>,
    /// The entity tag of the representation.
    pub etag: String,
}

/// The entity tag of an attachment, with the requested box when resized.
pub open spec fn etag_spec(id: u128, resize: Option<(u32, u32)>) -> Seq<char> {
    match resize {
        Some((w, h)) => "\""@ + uuid_text(id) + "-"@ + decimal(w as nat) + "x"@ + decimal(
            h as nat,
        ) + "\""@,
        None => "\""@ + uuid_text(id) + "\""@,
    }
}

/// Plans the answer for an attachment: a box is requested when `w` or `h`
/// is positive (a missing one counts as 0), and only resizable types are
/// resized (`resizable`).
pub fn serve_plan(id: u128, params: AttachmentServeParams, resizable: bool) -> (r: ServePlan)
    ensures
        ({
            let w: u32 = match params.w {
                Some(x) => x,
                None => 0,
            };
            let h: u32 = match params.h {
                Some(x) => x,
                None => 0,
            };
            let want = (w > 0 || h > 0) && resizable;
            &&& r.resize == (if want {
                Some((w, h))
            } else {
                None::<(u32, u32)>
            })
            &&& r.etag@ == etag_spec(id, r.resize)
        }),
{
    let w: u32 = match params.w {
        Some(x) => x,
        None => 0,
    };
    let h: u32 = match params.h {
        Some(x) => x,
        None => 0,
    };
    let resize = if (w > 0 || h > 0) && resizable {
        Some((w, h))
    } else {
        None
    };
    let mut etag = to_owned_string("\"");
    let ids = uuid_to_string(id);
    etag.append(ids.as_str());
    match resize {
        Some((w, h)) => {
            etag.append("-");
            let ws = u64_to_decimal(w as u64);
            etag.append(ws.as_str());
            etag.append("x");
            let hs = u64_to_decimal(h as u64);
            etag.append(hs.as_str());
        },
        None => {},
    }
    etag.append("\"");
    ServePlan { resize, etag }
}

/// Whether a conditional request already holds the representation:
/// `If-None-Match` equal to the entity tag is answered with `304`.
pub fn not_modified(if_none_match: Option<&str>, etag: &str) -> (r: bool)
    ensures
        r == (match if_none_match {
            Some(v) => v@ == etag@,
            None => false,
        }),
{
    match if_none_match {
        Some(v) => str_eq(v, etag),
        None => false,
    }
}

/// The `Cache-Control` of served attachments.
pub const ATTACHMENT_CACHE_CONTROL: &'static str = "private, immutable, max-age=31536000";

// -- Downscaling ------------------------------------------------------------------------

/// The image formats that can be resized.
#[derive(Debug, Clone, Copy, PartialEq, Eq)]
pub enum ImgFormat {
    Png,
    Jpeg,
    Gif,
    WebP,
}

/// The image format of a MIME type, for the types that can be resized.
pub open spec fn format_of_spec(mime: Seq<char>) -> Option<ImgFormat> {
    if mime == "image/png"@ {
        Some(ImgFormat::Png)
    } else if mime == "image/jpeg"@ {
        Some(ImgFormat::Jpeg)
    } else if mime == "image/gif"@ {
        Some(ImgFormat::Gif)
    } else if mime == "image/webp"@ {
        Some(ImgFormat::WebP)
    } else {
        None
    }
}

/// The image format of a MIME type.
pub fn format_of(mime: &str) -> (r: Option<ImgFormat>)
    ensures
        r == format_of_spec(mime@),
{
    if str_eq(mime, "image/png") {
        Some(ImgFormat::Png)
    } else if str_eq(mime, "image/jpeg") {
        Some(ImgFormat::Jpeg)
    } else if str_eq(mime, "image/gif") {
        Some(ImgFormat::Gif)
    } else if str_eq(mime, "image/webp") {
        Some(ImgFormat::WebP)
    } else {
        None
    }
}

/// The size of a resize: a box side of 0 means the image's own side, and
/// an image that already fits the box is kept as it is (`None`).
pub open spec fn resize_box(orig_w: u32, orig_h: u32, max_w: u32, max_h: u32) -> Option<(u32, u32)> {
    let tw = if max_w > 0 {
        max_w
    } else {
        orig_w
    };
    let th = if max_h > 0 {
        max_h
    } else {
        orig_h
    };
    if orig_w <= tw && orig_h <= th {
        None
    } else {
        Some((tw, th))
    }
}

/// The size of a resize.
pub fn resize_target(orig_w: u32, orig_h: u32, max_w: u32, max_h: u32) -> (r: Option<(u32, u32)>)
    ensures
        r == resize_box(orig_w, orig_h, max_w, max_h),
{
    let tw = if max_w > 0 {
        max_w
    } else {
        orig_w
    };
    let th = if max_h > 0 {
        max_h
    } else {
        orig_h
    };
    if orig_w <= tw && orig_h <= th {
        None
    } else {
        Some((tw, th))
    }
}

/// Images are only ever made smaller: a resize happens only for an image
/// that does not fit the box, into a box no larger than the image in any
/// side that the request leaves open, and a request with no box keeps
/// every image as it is.
pub proof fn law_never_upscales(orig_w: u32, orig_h: u32, max_w: u32, max_h: u32)
    ensures
        resize_box(orig_w, orig_h, max_w, max_h) matches Some((tw, th)) ==> (orig_w > tw
            || orig_h > th),
        resize_box(orig_w, orig_h, max_w, max_h) matches Some((tw, th)) ==> (max_w == 0 ==> tw
            == orig_w) && (max_h == 0 ==> th == orig_h),
        resize_box(orig_w, orig_h, 0, 0) is None,
{
}

/// An image that fits the requested box is kept as it is; one wider or
/// taller than a side the request sets is resized into the box, whose open
/// sides keep the image's own size.
pub proof fn law_oversized_images_fit_the_box(orig_w: u32, orig_h: u32, max_w: u32, max_h: u32)
    ensures
        (max_w > 0 && orig_w > max_w) || (max_h > 0 && orig_h > max_h) ==> resize_box(
            orig_w,
            orig_h,
            max_w,
            max_h,
        ) == Some(
            (if max_w > 0 {
                max_w
            } else {
                orig_w
            }, if max_h > 0 {
                max_h
            } else {
                orig_h
            }),
        ),
        (max_w == 0 || orig_w <= max_w) && (max_h == 0 || orig_h <= max_h) ==> resize_box(
            orig_w,
            orig_h,
            max_w,
            max_h,
        ) is None,
{
}

/// The width and height of the image that `image::load_from_memory_with_format`
/// decodes from the bytes, or `None` where it reports an error.
pub uninterp spec fn decoded_size(data: Seq<u8>, format: ImgFormat) -> Option<(u32, u32)>;

/// The bytes that decoding an image, resizing it into a `w` by `h` box
/// with the Lanczos3 filter and encoding it again in the same format give,
/// or `None` where decoding or encoding reports an error.
pub uninterp spec fn resized_encoding(data: Seq<u8>, format: ImgFormat, w: u32, h: u32) -> Option<
    Seq<u8>,
>;

/// Calls `image::load_from_memory_with_format` and reads the decoded image's
/// `width` and `height`. Which bytes decode, and to what size, is named
/// `decoded_size`.
#[verifier::external_body]
fn image_size(data: &[u8], format: ImgFormat) -> (r: Option<(u32, u32)>)
    ensures
        r == decoded_size(data@, format),
{
    let f = match format {
        ImgFormat::Png => image::ImageFormat::Png,
        ImgFormat::Jpeg => image::ImageFormat::Jpeg,
        ImgFormat::Gif => image::ImageFormat::Gif,
        ImgFormat::WebP => image::ImageFormat::WebP,
    };
    image::load_from_memory_with_format(data, f).ok().map(|img| (img.width(), img.height()))
}

/// Decodes the image with `image::load_from_memory_with_format`, scales it
/// with `DynamicImage::resize` and the Lanczos3 filter (to the largest size
/// that keeps its aspect ratio and fits the box) and encodes the result
/// with `write_to` in the same format. The bytes are named
/// `resized_encoding`; nothing more is claimed of them.
#[verifier::external_body]
fn resize_encoded(data: &[u8], format: ImgFormat, w: u32, h: u32) -> (r: Option<Vec<u8>>)
    ensures
        match r {
            Some(b) => resized_encoding(data@, format, w, h) == Some(b@),
            None => resized_encoding(data@, format, w, h) is None,
        },
{
    let f = match format {
        ImgFormat::Png => image::ImageFormat::Png,
        ImgFormat::Jpeg => image::ImageFormat::Jpeg,
        ImgFormat::Gif => image::ImageFormat::Gif,
        ImgFormat::WebP => image::ImageFormat::WebP,
    };
    let img = image::load_from_memory_with_format(data, f).ok()?;
    let mut buf = std::io::Cursor::new(Vec::new());
    img.resize(w, h, image::imageops::FilterType::Lanczos3).write_to(&mut buf, f).ok()?;
    Some(buf.into_inner())
}

/// What downscaling an image into a box gives: nothing for a type that
/// cannot be resized or bytes that do not decode; a box side of 0 means
/// the image's own side; an image that already fits is kept as it is, any
/// other is resized into the box.
pub open spec fn resize_result(data: Seq<u8>, mime: Seq<char>, max_w: u32, max_h: u32) -> Option<
    Seq<u8>,
> {
    match format_of_spec(mime) {
        None => None,
        Some(f) => match decoded_size(data, f) {
            None => None,
            Some((ow, oh)) => match resize_box(ow, oh, max_w, max_h) {
                None => Some(data),
                Some((tw, th)) => resized_encoding(data, f, tw, th),
            },
        },
    }
}

/// Downscales an image to fit a box, keeping its aspect ratio; images are
/// only ever made smaller.
pub fn resize_image(data: &[u8], mime_type: &str, max_w: u32, max_h: u32) -> (r: Option<Vec<u8>>)
    ensures
        match r {
            Some(b) => resize_result(data@, mime_type@, max_w, max_h) == Some(b@),
            None => resize_result(data@, mime_type@, max_w, max_h) is None,
        },
{
    let format = match format_of(mime_type) {
        Some(f) => f,
        None => {
            return None;
        },
    };
    let (ow, oh) = match image_size(data, format) {
        Some(t) => t,
        None => {
            return None;
        },
    };
    match resize_target(ow, oh, max_w, max_h) {
        None => Some(vstd::slice::slice_to_vec(data)),
        Some((tw, th)) => resize_encoded(data, format, tw, th),
    }
}

/// The bytes to serve: the downscaled image when a resize was planned and
/// succeeded, the original otherwise.
pub fn served_bytes(original: Vec<u8>, resized: Option<Option<Vec<u8>>>) -> (r: Vec<u8>)
    ensures
        r == (match resized {
            Some(Some(b)) => b,
            _ => original,
        }),
{
    match resized {
        Some(Some(b)) => b,
        _ => original,
    }
}

/// Each image type that uploads carry and the server can decode, PNG,
/// JPEG, GIF and WebP, is resized in its own format (two types never share
/// one), so a decodable image of one of them that does not fit the box is
/// re-encoded at the box's size; any other type is never resized.
pub proof fn law_image_types_are_resized(data: Seq<u8>, mime: Seq<char>, max_w: u32, max_h: u32)
    ensures
        format_of_spec("image/png"@) == Some(ImgFormat::Png),
        format_of_spec("image/jpeg"@) == Some(ImgFormat::Jpeg),
        format_of_spec("image/gif"@) == Some(ImgFormat::Gif),
        format_of_spec("image/webp"@) == Some(ImgFormat::WebP),
        (mime != "image/png"@ && mime != "image/jpeg"@ && mime != "image/gif"@ && mime
            != "image/webp"@) ==> resize_result(data, mime, max_w, max_h) is None,
        format_of_spec(mime) matches Some(f) ==> (decoded_size(data, f) matches Some((ow, oh))
            ==> (resize_box(ow, oh, max_w, max_h) matches Some((tw, th)) ==> resize_result(
            data,
            mime,
            max_w,
            max_h,
        ) == resized_encoding(data, f, tw, th))),
{
    reveal_strlit("image/png");
    reveal_strlit("image/jpeg");
    reveal_strlit("image/gif");
    reveal_strlit("image/webp");
    assert("image/png"@ != "image/jpeg"@) by {
        assert("image/png"@[6] != "image/jpeg"@[6]);
    }
    assert("image/png"@ != "image/gif"@) by {
        assert("image/png"@[6] != "image/gif"@[6]);
    }
    assert("image/jpeg"@ != "image/gif"@) by {
        assert("image/jpeg"@[6] != "image/gif"@[6]);
    }
    assert("image/png"@ != "image/webp"@) by {
        assert("image/png"@[6] != "image/webp"@[6]);
    }
    assert("image/jpeg"@ != "image/webp"@) by {
        assert("image/jpeg"@[6] != "image/webp"@[6]);
    }
    assert("image/gif"@ != "image/webp"@) by {
        assert("image/gif"@[6] != "image/webp"@[6]);
    }
}

} // verus!
