//! Webhooks: the URL check that keeps deliveries off private networks,
//! signing secrets and payload signatures, and the merge of updates.
use vstd::prelude::*;

use hmac::digest::KeyInit;
use hmac::Mac;

use crate::http::{is_error, ApiError};
use crate::text::{ascii_lower, ascii_lower_char, push_char, str_eq, to_owned_string, trim_spec, trim_str};

verus! {

// -- Addresses ---------------------------------------------------------------------

/// An IP address: four octets, or eight 16-bit segments.
#[derive(Debug, Clone, Copy, PartialEq, Eq)]
pub enum IpAddress {
    V4([u8; 4]),
    V6([u16; 8]),
}

/// Whether the IPv4 address `a.b.c.d` is loopback (`127/8`), private
/// (`10/8`, `172.16/12`, `192.168/16`), link-local (`169.254/16`),
/// unspecified or broadcast.
pub open spec fn is_private_v4(a: int, b: int, c: int, d: int) -> bool {
    ||| a == 127
    ||| a == 10
    ||| (a == 172 && 16 <= b <= 31)
    ||| (a == 192 && b == 168)
    ||| (a == 169 && b == 254)
    ||| (a == 0 && b == 0 && c == 0 && d == 0)
    ||| (a == 255 && b == 255 && c == 255 && d == 255)
}

/// Whether IPv6 segments hold an IPv4-mapped address, `::ffff:a.b.c.d`.
pub open spec fn is_v4_mapped(s: [u16; 8]) -> bool {
    s[0] == 0 && s[1] == 0 && s[2] == 0 && s[3] == 0 && s[4] == 0 && s[5] == 0xffff
}

/// Whether an address is a private or reserved IPv4 address
/// (`is_private_v4`), or an IPv6 address that is loopback, unspecified,
/// unique-local (`fc00::/7`), link-local (`fe80::/10`), or IPv4-mapped with
/// an embedded IPv4 address that is private or reserved.
pub open spec fn is_private_spec(ip: IpAddress) -> bool {
    match ip {
        IpAddress::V4(o) => is_private_v4(o[0] as int, o[1] as int, o[2] as int, o[3] as int),
        IpAddress::V6(s) => {
            ||| (s[0] == 0 && s[1] == 0 && s[2] == 0 && s[3] == 0 && s[4] == 0 && s[5] == 0 && s[6]
                == 0 && s[7] == 1)
            ||| (s[0] == 0 && s[1] == 0 && s[2] == 0 && s[3] == 0 && s[4] == 0 && s[5] == 0 && s[6]
                == 0 && s[7] == 0)
            ||| (s[0] & 0xfe00u16) == 0xfc00u16
            ||| (s[0] & 0xffc0u16) == 0xfe80u16
            ||| (is_v4_mapped(s) && is_private_v4(
                s[6] as int / 256,
                s[6] as int % 256,
                s[7] as int / 256,
                s[7] as int % 256,
            ))
        },
    }
}

fn private_v4(a: u16, b: u16, c: u16, d: u16) -> (r: bool)
    ensures
        r == is_private_v4(a as int, b as int, c as int, d as int),
{
    a == 127 || a == 10 || (a == 172 && 16 <= b && b <= 31) || (a == 192 && b == 168) || (a == 169
        && b == 254) || (a == 0 && b == 0 && c == 0 && d == 0) || (a == 255 && b == 255 && c == 255
        && d == 255)
}

/// Whether an address must not receive webhook deliveries.
pub fn is_private_ip(ip: IpAddress) -> (r: bool)
    ensures
        r == is_private_spec(ip),
{
    match ip {
        IpAddress::V4(o) => private_v4(o[0] as u16, o[1] as u16, o[2] as u16, o[3] as u16),
        IpAddress::V6(s) => {
            let zero5 = s[0] == 0 && s[1] == 0 && s[2] == 0 && s[3] == 0 && s[4] == 0;
            let zero6 = zero5 && s[5] == 0 && s[6] == 0;
            let mapped = zero5 && s[5] == 0xffff && private_v4(
                s[6] / 256,
                s[6] % 256,
                s[7] / 256,
                s[7] % 256,
            );
            (zero6 && s[7] == 1) || (zero6 && s[7] == 0) || (s[0] & 0xfe00u16) == 0xfc00u16 || (s[0]
                & 0xffc0u16) == 0xfe80u16 || mapped
        },
    }
}

// -- URL check ------------------------------------------------------------------------

/// What `url::Url::parse` gives for a string: the scheme, the host text, and
/// the host's address when the host is an IP address; or the text of the
/// parse error.
pub uninterp spec fn parsed_url(url: Seq<char>) -> Result<
    (Seq<char>, Option<Seq<char>>, Option<IpAddress>),
    Seq<char>,
>;

/// Calls `url::Url::parse` and reads `scheme`, `host_str` and `host` (an
/// IPv4 host as its octets, an IPv6 host as its segments); an error is kept
/// as its `Display` text. The result is named `parsed_url`.
#[verifier::external_body]
fn parse_url(url: &str) -> (r: Result<(String, Option<String>, Option<IpAddress>), String>)
    ensures
        match r {
            Ok((s, h, ip)) => parsed_url(url@) == Ok::<
                (Seq<char>, Option<Seq<char>>, Option<IpAddress>),
                Seq<char>,
            >((s@, crate::messages::opt_view(h), ip)),
            Err(e) => parsed_url(url@) == Err::<
                (Seq<char>, Option<Seq<char>>, Option<IpAddress>),
                Seq<char>,
            >(e@),
        },
{
    match url::Url::parse(url) {
        Ok(u) => {
            let ip = match u.host() {
                Some(url::Host::Ipv4(a)) => Some(IpAddress::V4(a.octets())),
                Some(url::Host::Ipv6(a)) => Some(IpAddress::V6(a.segments())),
                _ => None,
            };
            Ok((u.scheme().to_string(), u.host_str().map(str::to_string), ip))
        },
        Err(e) => Err(e.to_string()),
    }
}

/// `s` without its leading `[` characters.
pub open spec fn strip_open(s: Seq<char>) -> Seq<char>
    decreases s.len(),
{
    if s.len() > 0 && s[0] == '[' {
        strip_open(s.drop_first())
    } else {
        s
    }
}

/// `s` without its trailing `]` characters.
pub open spec fn strip_close(s: Seq<char>) -> Seq<char>
    decreases s.len(),
{
    if s.len() > 0 && s.last() == ']' {
        strip_close(s.drop_last())
    } else {
        s
    }
}

/// The host names that always mean the local machine.
pub open spec fn is_loopback_name(lower: Seq<char>) -> bool {
    lower == "localhost"@ || lower == "127.0.0.1"@ || lower == "::1"@ || lower == "[::1]"@
}

/// The verdict on a webhook URL: it must parse, use `http` or `https`, have
/// a host, not name the local machine, and not be a private or reserved
/// address. An IPv4 host is reported as its host text, an IPv6 host as its
/// host text without the brackets.
///
/// For `http` and `https` URLs the URL parser reads every host that is an
/// IP address as one (IPv4 hosts as four decimal numbers, IPv6 hosts in
/// brackets), so the address comes from the parsed URL.
pub open spec fn url_verdict(url: Seq<char>) -> Result<(), Seq<char>> {
    match parsed_url(url) {
        Err(e) => Err("Invalid URL: "@ + e),
        Ok((scheme, host, ip)) => if scheme != "http"@ && scheme != "https"@ {
            Err("Unsupported scheme '"@ + scheme + "': only http and https are allowed"@)
        } else {
            match host {
                None => Err("URL has no host"@),
                Some(h) => if is_loopback_name(h.map_values(|c: char| ascii_lower(c))) {
                    Err("Loopback addresses are not allowed"@)
                } else {
                    match ip {
                        Some(a) => if is_private_spec(a) {
                            let text = match a {
                                IpAddress::V4(_) => h,
                                IpAddress::V6(_) => strip_close(strip_open(h)),
                            };
                            Err("Private/reserved IP address "@ + text + " is not allowed"@)
                        } else {
                            Ok(())
                        },
                        None => Ok(()),
                    }
                },
            }
        },
    }
}

/// No webhook can point at the server's own network: a URL is accepted
/// exactly when it parses, uses `http` or `https`, has a host, and that host
/// is neither a loopback name nor a private or reserved address.
pub proof fn law_accepted_urls_are_public(url: Seq<char>)
    ensures
        url_verdict(url) is Ok <==> (parsed_url(url) matches Ok((scheme, host, ip)) && (scheme
            == "http"@ || scheme == "https"@) && host is Some && !is_loopback_name(
            host->0.map_values(|c: char| ascii_lower(c)),
        ) && !(ip matches Some(a) && is_private_spec(a))),
{
}

/// View of a verdict.
pub open spec fn verdict_view(r: Result<(), String>) -> Result<(), Seq<char>> {
    match r {
        Ok(()) => Ok(()),
        Err(e) => Err(e@),
    }
}

fn lower_ascii(v: &[char]) -> (r: Vec<char>)
    ensures
        r@ == v@.map_values(|c: char| ascii_lower(c)),
{
    let mut out: Vec<char> = Vec::new();
    let mut i: usize = 0;
    while i < v.len()
        invariant
            i <= v.len(),
            out@ == v@.take(i as int).map_values(|c: char| ascii_lower(c)),
        decreases v.len() - i,
    {
        out.push(ascii_lower_char(v[i]));
        assert(v@.take(i + 1).map_values(|c: char| ascii_lower(c)) =~= v@.take(i as int).map_values(
            |c: char| ascii_lower(c),
        ).push(ascii_lower(v@[i as int])));
        i = i + 1;
    }
    assert(v@.take(v.len() as int) =~= v@);
    out
}

proof fn lemma_strip_open(s: Seq<char>, i: int)
    requires
        0 <= i <= s.len(),
        forall|j: int| 0 <= j < i ==> s[j] == '[',
    ensures
        strip_open(s) == strip_open(s.skip(i)),
    decreases i,
{
    if i > 0 {
        assert(s.skip(1).skip(i - 1) =~= s.skip(i));
        lemma_strip_open(s.drop_first(), i - 1);
        assert(s.drop_first() =~= s.skip(1));
    } else {
        assert(s.skip(0) =~= s);
    }
}

proof fn lemma_strip_close(s: Seq<char>, k: int)
    requires
        0 <= k <= s.len(),
        forall|j: int| k <= j < s.len() ==> s[j] == ']',
    ensures
        strip_close(s) == strip_close(s.take(k)),
    decreases s.len() - k,
{
    if k < s.len() {
        lemma_strip_close(s.drop_last(), k);
        assert(s.drop_last().take(k) =~= s.take(k));
    } else {
        assert(s.take(k) =~= s);
    }
}

/// Removes leading `[` and trailing `]` characters.
fn strip_brackets(h: &str) -> (r: String)
    ensures
        r@ == strip_close(strip_open(h@)),
{
    let v = crate::text::chars_of(h);
    let mut a: usize = 0;
    while a < v.len() && v[a] == '['
        invariant
            a <= v.len(),
            forall|j: int| 0 <= j < a ==> v@[j] == '[',
        decreases v.len() - a,
    {
        a = a + 1;
    }
    proof {
        lemma_strip_open(v@, a as int);
    }
    let mut b: usize = v.len();
    let ghost rest = v@.skip(a as int);
    while b > a && v[b - 1] == ']'
        invariant
            a <= b <= v.len(),
            rest == v@.skip(a as int),
            forall|j: int| b <= j < v.len() ==> v@[j] == ']',
        decreases b,
    {
        b = b - 1;
    }
    proof {
        lemma_strip_close(rest, (b - a) as int);
        assert(rest.take((b - a) as int) =~= v@.subrange(a as int, b as int));
        if b > a {
            assert(v@[b - 1] != ']');
        }
    }
    let mut w: Vec<char> = Vec::new();
    let mut i: usize = a;
    while i < b
        invariant
            a <= i <= b <= v.len(),
            w@ == v@.subrange(a as int, i as int),
        decreases b - i,
    {
        w.push(v[i]);
        assert(v@.subrange(a as int, i as int).push(v@[i as int]) =~= v@.subrange(a as int, i + 1));
        i = i + 1;
    }
    proof {
        let s = strip_open(v@);
        assert(s == rest);
        assert(strip_close(rest) == strip_close(rest.take((b - a) as int)));
        let t = rest.take((b - a) as int);
        if t.len() > 0 {
            assert(t.last() == v@[b - 1]);
        }
    }
    crate::text::string_from_chars(w.as_slice())
}

/// Checks that a webhook URL is a safe, publicly reachable HTTP(S) endpoint.
pub fn validate_webhook_url(url: &str) -> (r: Result<(), String>)
    ensures
        verdict_view(r) == url_verdict(url@),
{
    proof {
        reveal_strlit("localhost");
        reveal_strlit("127.0.0.1");
        reveal_strlit("::1");
        reveal_strlit("[::1]");
    }
    let (scheme, host, ip) = match parse_url(url) {
        Ok(t) => t,
        Err(e) => {
            let mut m = to_owned_string("Invalid URL: ");
            m.append(e.as_str());
            return Err(m);
        },
    };
    if !str_eq(scheme.as_str(), "http") && !str_eq(scheme.as_str(), "https") {
        let mut m = to_owned_string("Unsupported scheme '");
        m.append(scheme.as_str());
        m.append("': only http and https are allowed");
        return Err(m);
    }
    let h = match host {
        Some(h) => h,
        None => {
            return Err(to_owned_string("URL has no host"));
        },
    };
    let hv = crate::text::chars_of(h.as_str());
    let lower = lower_ascii(hv.as_slice());
    let l1 = crate::text::chars_of("localhost");
    let l2 = crate::text::chars_of("127.0.0.1");
    let l3 = crate::text::chars_of("::1");
    let l4 = crate::text::chars_of("[::1]");
    if crate::text::seq_eq(lower.as_slice(), l1.as_slice()) || crate::text::seq_eq(
        lower.as_slice(),
        l2.as_slice(),
    ) || crate::text::seq_eq(lower.as_slice(), l3.as_slice()) || crate::text::seq_eq(
        lower.as_slice(),
        l4.as_slice(),
    ) {
        return Err(to_owned_string("Loopback addresses are not allowed"));
    }
    match ip {
        Some(a) => {
            if is_private_ip(a) {
                let text = match a {
                    IpAddress::V4(_) => h,
                    IpAddress::V6(_) => strip_brackets(h.as_str()),
                };
                let mut m = to_owned_string("Private/reserved IP address ");
                m.append(text.as_str());
                m.append(" is not allowed");
                Err(m)
            } else {
                Ok(())
            }
        },
        None => Ok(()),
    }
}

// -- Secrets and signatures --------------------------------------------------------------

/// The lower-case hexadecimal digit of a value below 16.
pub open spec fn hex_digit(d: int) -> char {
    if d < 10 {
        (('0' as int) + d) as char
    } else {
        (('a' as int) + d - 10) as char
    }
}

/// Lower-case hexadecimal text of bytes, two digits per byte.
pub open spec fn hex_text(bytes: Seq<u8>) -> Seq<char>
    decreases bytes.len(),
{
    if bytes.len() == 0 {
        Seq::empty()
    } else {
        hex_text(bytes.drop_last()) + seq![
            hex_digit(bytes.last() as int / 16),
            hex_digit(bytes.last() as int % 16),
        ]
    }
}

/// Whether a character is a lower-case hexadecimal digit.
pub open spec fn is_lower_hex(c: char) -> bool {
    ('0' <= c && c <= '9') || ('a' <= c && c <= 'f')
}

proof fn lemma_hex_text(bytes: Seq<u8>)
    ensures
        hex_text(bytes).len() == 2 * bytes.len(),
        forall|i: int| 0 <= i < hex_text(bytes).len() ==> is_lower_hex(#[trigger] hex_text(bytes)[i]),
    decreases bytes.len(),
{
    if bytes.len() > 0 {
        lemma_hex_text(bytes.drop_last());
        let hi = bytes.last() as int / 16;
        let lo = bytes.last() as int % 16;
        assert(is_lower_hex(hex_digit(hi)));
        assert(is_lower_hex(hex_digit(lo)));
        let t = hex_text(bytes);
        let p = hex_text(bytes.drop_last());
        assert forall|i: int| 0 <= i < t.len() implies is_lower_hex(#[trigger] t[i]) by {
            if i < p.len() {
                assert(t[i] == p[i]);
            }
        }
    }
}

fn hex_digit_exec(d: u8) -> (c: char)
    requires
        d < 16,
    ensures
        c == hex_digit(d as int),
{
    if d < 10 {
        (48u8 + d) as char
    } else {
        (87u8 + d) as char
    }
}

/// Lower-case hexadecimal text of bytes, as `hex::encode` writes it.
pub fn hex_encode(bytes: &[u8]) -> (r: String)
    ensures
        r@ == hex_text(bytes@),
        r@.len() == 2 * bytes.len(),
        forall|i: int| 0 <= i < r@.len() ==> is_lower_hex(#[trigger] r@[i]),
{
    let mut s = String::new();
    let mut i: usize = 0;
    while i < bytes.len()
        invariant
            i <= bytes.len(),
            s@ == hex_text(bytes@.take(i as int)),
        decreases bytes.len() - i,
    {
        let b = bytes[i];
        push_char(&mut s, hex_digit_exec(b / 16));
        push_char(&mut s, hex_digit_exec(b % 16));
        proof {
            let t = bytes@.take(i + 1);
            assert(t.drop_last() =~= bytes@.take(i as int));
            assert(t.last() == b);
            assert(s@ =~= hex_text(t));
        }
        i = i + 1;
    }
    assert(bytes@.take(bytes.len() as int) =~= bytes@);
    proof {
        lemma_hex_text(bytes@);
    }
    s
}

/// A new signing secret: 32 random bytes as 64 lower-case hexadecimal
/// digits; `None` when the random source fails.
pub fn generate_secret() -> (r: Option<String>)
    ensures
        r is Some ==> r->0@.len() == 64 && forall|i: int|
            0 <= i < 64 ==> is_lower_hex(#[trigger] r->0@[i]),
{
    match crate::http::random_bytes(32) {
        Some(b) => Some(hex_encode(b.as_slice())),
        None => None,
    }
}

/// The HMAC-SHA256 tag of a message under a key.
pub uninterp spec fn hmac_sha256_tag(key: Seq<u8>, message: Seq<u8>) -> Seq<u8>;

/// Computes HMAC-SHA256 with `hmac::Hmac<sha2::Sha256>`: `new_from_slice`
/// with the key (which accepts keys of any length, so it never fails),
/// `update` with the message, `finalize`. The tag is named
/// `hmac_sha256_tag` and has SHA-256's 32 bytes.
#[verifier::external_body]
fn hmac_sha256(key: &[u8], message: &[u8]) -> (r: Option<Vec<u8>>)
    ensures
        r is Some,
        r->0@ == hmac_sha256_tag(key@, message@),
        r->0@.len() == 32,
{
    <hmac::Hmac<sha2::Sha256> as KeyInit>::new_from_slice(key).ok().map(
        |mut m| {
            m.update(message);
            m.finalize().into_bytes().to_vec()
        },
    )
}

/// The signature of a webhook payload: the lower-case hexadecimal
/// HMAC-SHA256 of the body's UTF-8 bytes under the secret's UTF-8 bytes.
pub open spec fn signature_spec(secret: Seq<char>, body: Seq<char>) -> Seq<char> {
    hex_text(hmac_sha256_tag(vstd::utf8::encode_utf8(secret), vstd::utf8::encode_utf8(body)))
}

/// Signs a webhook payload.
pub fn compute_signature(secret: &str, body: &str) -> (r: String)
    ensures
        r@ == signature_spec(secret@, body@),
        r@.len() == 64,
        forall|i: int| 0 <= i < 64 ==> is_lower_hex(#[trigger] r@[i]),
{
    let tag = hmac_sha256(secret.as_bytes(), body.as_bytes());
    match tag {
        Some(t) => hex_encode(t.as_slice()),
        None => String::new(),
    }
}

/// The `X-Webhook-Signature` header of a payload: `sha256=` and the
/// signature.
pub fn signature_header(secret: &str, body: &str) -> (r: String)
    ensures
        r@ == "sha256="@ + signature_spec(secret@, body@),
{
    let mut h = to_owned_string("sha256=");
    let s = compute_signature(secret, body);
    h.append(s.as_str());
    h
}

// -- Records and requests ------------------------------------------------------------------

/// A webhook as the store keeps it.
#[derive(Debug, Clone)]
pub struct WebhookRecord {
    pub id: String,
    pub name: String,
    pub url: String,
    pub secret: String,
    pub event_types: Vec<String>,
    pub active: bool,
    pub verified_at: Option<String>,
    pub created_at: String,
    pub updated_at: String,
}

/// A webhook as the API returns it.
#[derive(Debug, Clone)]
pub struct WebhookResponse {
    pub id: String,
    pub name: String,
    pub url: String,
    pub secret: String,
    pub event_types: Vec<String>,
    pub active: bool,
    pub verified_at: Option<String>,
    pub created_at: String,
    pub updated_at: String,
}

/// The API form of a stored webhook: every field as it is.
pub fn to_response(r: WebhookRecord) -> (w: WebhookResponse)
    ensures
        w.id == r.id && w.name == r.name && w.url == r.url && w.secret == r.secret
            && w.event_types == r.event_types && w.active == r.active && w.verified_at
            == r.verified_at && w.created_at == r.created_at && w.updated_at == r.updated_at,
{
    WebhookResponse {
        id: r.id,
        name: r.name,
        url: r.url,
        secret: r.secret,
        event_types: r.event_types,
        active: r.active,
        verified_at: r.verified_at,
        created_at: r.created_at,
        updated_at: r.updated_at,
    }
}

/// Answer of the secret rotation.
#[derive(Debug, Clone)]
pub struct RotateSecretResponse {
    pub secret: String,
}

/// Answer of a verification attempt.
#[derive(Debug, Clone)]
pub struct VerifyWebhookResponse {
    /// Whether the remote endpoint answered with a 2xx status.
    pub success: bool,
    pub detail: String,
}

/// Body of `POST /api/webhooks`.
#[derive(Debug, Clone)]
pub struct CreateWebhookRequest {
    pub name: String,
    pub url: String,
    pub event_types: Vec<String>,
    /// Defaults to `true` when omitted.
    pub active: Option<bool>,
}

/// Body of `PATCH /api/webhooks/{id}`.
#[derive(Debug, Clone)]
pub struct UpdateWebhookRequest {
    pub name: Option<String>,
    pub url: Option<String>,
    pub event_types: Option<Vec<String>>,
    pub active: Option<bool>,
}

/// The answer for a webhook that does not exist: `404` (JSON).
pub fn webhook_not_found() -> (e: ApiError)
    ensures
        is_error(e, 404, "Webhook not found"@, true),
{
    ApiError::json(404, "Webhook not found")
}

/// A rejected URL: `400` with the verdict as a JSON error.
pub fn url_rejected(reason: String) -> (e: ApiError)
    ensures
        e.status == 400 && e.message == reason && e.json,
{
    ApiError { status: 400, message: reason, json: true }
}

/// The checks of `POST /api/webhooks`: a name that is not blank, and a URL
/// that passes the URL check; both are answered with `400` (JSON).
pub fn check_create_webhook(body: &CreateWebhookRequest) -> (r: Result<(), ApiError>)
    ensures
        trim_spec(body.name@).len() == 0 ==> r is Err && is_error(
            r->Err_0,
            400,
            "Name cannot be empty"@,
            true,
        ),
        trim_spec(body.name@).len() > 0 ==> match url_verdict(body.url@) {
            Ok(()) => r is Ok,
            Err(m) => r is Err && is_error(r->Err_0, 400, m, true),
        },
{
    if trim_str(body.name.as_str()).is_empty() {
        return Err(ApiError::json(400, "Name cannot be empty"));
    }
    match validate_webhook_url(body.url.as_str()) {
        Ok(()) => Ok(()),
        Err(m) => Err(url_rejected(m)),
    }
}

/// The fields a webhook update writes.
#[derive(Debug, Clone)]
pub struct WebhookUpdate {
    pub name: String,
    pub url: String,
    pub event_types: Vec<String>,
    pub active: bool,
}

/// The fields that an update writes: each given field replaces the stored
/// one, the others stay.
pub open spec fn merged_update(existing: WebhookRecord, body: UpdateWebhookRequest) -> WebhookUpdate {
    WebhookUpdate {
        name: match body.name {
            Some(n) => n,
            None => existing.name,
        },
        url: match body.url {
            Some(u) => u,
            None => existing.url,
        },
        event_types: match body.event_types {
            Some(e) => e,
            None => existing.event_types,
        },
        active: match body.active {
            Some(a) => a,
            None => existing.active,
        },
    }
}

/// Merges an update into the stored webhook. A new URL must pass the URL
/// check (`400`, JSON); the stored URL is not checked again.
pub fn merge_webhook_update(existing: WebhookRecord, body: UpdateWebhookRequest) -> (r: Result<
    WebhookUpdate,
    ApiError,
>)
    ensures
        match body.url {
            Some(u) => match url_verdict(u@) {
                Ok(()) => r == Ok::<WebhookUpdate, ApiError>(merged_update(existing, body)),
                Err(m) => r is Err && is_error(r->Err_0, 400, m, true),
            },
            None => r == Ok::<WebhookUpdate, ApiError>(merged_update(existing, body)),
        },
{
    let ghost e0 = existing;
    let ghost b0 = body;
    match &body.url {
        Some(u) => {
            match validate_webhook_url(u.as_str()) {
                Ok(()) => {},
                Err(m) => {
                    return Err(url_rejected(m));
                },
            }
        },
        None => {},
    }
    let name = match body.name {
        Some(n) => n,
        None => existing.name,
    };
    let url = match body.url {
        Some(u) => u,
        None => existing.url,
    };
    let event_types = match body.event_types {
        Some(e) => e,
        None => existing.event_types,
    };
    let active = match body.active {
        Some(a) => a,
        None => existing.active,
    };
    let w = WebhookUpdate { name, url, event_types, active };
    assert(w == merged_update(e0, b0));
    Ok(w)
}

/// An update that names no field writes the webhook back as it was.
pub proof fn law_empty_update_keeps_webhook(existing: WebhookRecord, body: UpdateWebhookRequest)
    requires
        body.name is None,
        body.url is None,
        body.event_types is None,
        body.active is None,
    ensures
        merged_update(existing, body) == (WebhookUpdate {
            name: existing.name,
            url: existing.url,
            event_types: existing.event_types,
            active: existing.active,
        }),
{
}

/// The outcome of a verification delivery: `Ok` with the remote status code
/// and its text, or `Err` with the connection error's text. A 2xx status
/// is success (and the webhook is marked verified).
pub fn verify_outcome(result: Result<(u16, String), String>) -> (r: VerifyWebhookResponse)
    ensures
        match result {
            Ok((code, text)) => r.success == (200 <= code <= 299) && r.detail@
                == "Remote responded with "@ + text@,
            Err(e) => !r.success && r.detail@ == "Connection error: "@ + e@,
        },
{
    match result {
        Ok((code, text)) => {
            let mut d = to_owned_string("Remote responded with ");
            d.append(text.as_str());
            VerifyWebhookResponse { success: 200 <= code && code <= 299, detail: d }
        },
        Err(e) => {
            let mut d = to_owned_string("Connection error: ");
            d.append(e.as_str());
            VerifyWebhookResponse { success: false, detail: d }
        },
    }
}

/// An update replaces exactly the fields it gives: each given field takes
/// the requested value, and each field left out keeps the stored one.
pub proof fn law_update_replaces_given_fields(existing: WebhookRecord, body: UpdateWebhookRequest)
    ensures
        ({
            let u = merged_update(existing, body);
            &&& body.name matches Some(n) ==> u.name == n
            &&& body.name is None ==> u.name == existing.name
            &&& body.url matches Some(x) ==> u.url == x
            &&& body.url is None ==> u.url == existing.url
            &&& body.event_types matches Some(e) ==> u.event_types == e
            &&& body.event_types is None ==> u.event_types == existing.event_types
            &&& body.active matches Some(a) ==> u.active == a
            &&& body.active is None ==> u.active == existing.active
        }),
{
}

} // verus!
