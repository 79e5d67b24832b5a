//! Request-authentication decisions: session-cookie lookup, bearer-token
//! extraction, the same-origin check for cookie-authenticated mutations, and
//! the login/logout cookie headers.
use vstd::prelude::*;

use crate::text::{
    chars_of, eq_ignore_ascii_case, eq_ignore_ascii_case_spec, first_seg, has_prefix, has_substr,
    occurs_at_exec, push_char, seg_len, seg_len_exec, starts_with_chars, str_contains, str_eq,
    string_from_chars, to_owned_string, trim_range, trim_spec, trim_start_range, trim_start_spec,
    trim_str,
};

verus! {

// -- Cookies ------------------------------------------------------------------

/// Name of the session cookie that carries the web UI's JWT.
pub const SESSION_COOKIE: &'static str = "assistant_session";

/// The value that one `name=value` pair of a `Cookie` header gives for `name`:
/// the trimmed pair must start with `name`, then (after optional whitespace)
/// `=`; the value is the trimmed rest.
pub open spec fn cookie_value(pair: Seq<char>, name: Seq<char>) -> Option<Seq<char>> {
    let p = trim_spec(pair);
    if has_prefix(p, name) {
        let v = trim_start_spec(p.skip(name.len() as int));
        if v.len() > 0 && v[0] == '=' {
            Some(trim_spec(v.drop_first()))
        } else {
            None
        }
    } else {
        None
    }
}

/// The value of the first `;`-separated pair of `header` that names `name`.
pub open spec fn cookie_lookup(header: Seq<char>, name: Seq<char>) -> Option<Seq<char>>
    decreases header.len(),
{
    let k = seg_len(header, ';') as int;
    let found = cookie_value(header.take(k as int), name);
    if found is Some {
        found
    } else if k < header.len() {
        cookie_lookup(header.skip(k + 1 as int), name)
    } else {
        None
    }
}

/// View of an optional string slice.
pub open spec fn opt_str_view(o: Option<&str>) -> Option<Seq<char>> {
    match o {
        Some(s) => Some(s@),
        None => None,
    }
}

/// View of an optional owned string.
pub open spec fn opt_string_view(o: Option<String>) -> Option<Seq<char>> {
    match o {
        Some(s) => Some(s@),
        None => None,
    }
}

/// Extract a named cookie value from a `Cookie` header string.
pub fn extract_cookie<'a>(cookies: &'a str, name: &str) -> (r: Option<&'a str>)
    ensures
        opt_str_view(r) == cookie_lookup(cookies@, name@),
{
    let v = chars_of(cookies);
    let nm = chars_of(name);
    let mut start: usize = 0;
    assert(v@.skip(0) == v@);
    loop
        invariant
            start <= v.len(),
            v@ == cookies@,
            nm@ == name@,
            cookie_lookup(v@, nm@) == cookie_lookup(v@.skip(start as int), nm@),
        decreases v.len() - start,
    {
        let ghost rest = v@.skip(start as int);
        let k = seg_len_exec(v.as_slice(), start, ';');
        let ghost seg = rest.take((k - start) as int);
        assert(seg =~= v@.subrange(start as int, k as int));
        let (ps, pe) = trim_range(v.as_slice(), start, k);
        let ghost p = v@.subrange(ps as int, pe as int);
        let prefix_ok = nm.len() <= pe - ps && occurs_at_exec(v.as_slice(), nm.as_slice(), ps);
        proof {
            if nm.len() <= pe - ps {
                assert(p.subrange(0, nm@.len() as int) =~= v@.subrange(
                    ps as int,
                    ps + nm@.len(),
                ));
            }
            assert(prefix_ok == has_prefix(p, nm@));
        }
        if prefix_ok {
            let q = ps + nm.len();
            assert(p.skip(nm@.len() as int) =~= v@.subrange(q as int, pe as int));
            let x = trim_start_range(v.as_slice(), q, pe);
            if x < pe && v[x] == '=' {
                let ghost tv = v@.subrange(x as int, pe as int);
                assert(tv.drop_first() =~= v@.subrange(x + 1, pe as int));
                let (a, b) = trim_range(v.as_slice(), x + 1, pe);
                return Some(cookies.substring_char(a, b));
            }
            proof {
                let tv = v@.subrange(x as int, pe as int);
                if tv.len() > 0 {
                    assert(tv[0] == v@[x as int]);
                }
            }
        }
        if k < v.len() {
            assert(rest.skip((k - start) + 1) =~= v@.skip(k + 1));
            start = k + 1;
        } else {
            return None;
        }
    }
}

// -- Bearer tokens --------------------------------------------------------------

/// The token of an `Authorization` header: what follows `"Bearer "`, trimmed.
pub open spec fn bearer_token_spec(header: Seq<char>) -> Option<Seq<char>> {
    if has_prefix(header, "Bearer "@) {
        Some(trim_spec(header.skip(7)))
    } else {
        None
    }
}

/// Extracts the bearer token from an `Authorization` header value.
pub fn bearer_token(header: &str) -> (r: Option<&str>)
    ensures
        opt_str_view(r) == bearer_token_spec(header@),
{
    proof {
        reveal_strlit("Bearer ");
    }
    let v = chars_of(header);
    let p = chars_of("Bearer ");
    if starts_with_chars(v.as_slice(), p.as_slice()) {
        assert(v@.skip(7) =~= v@.subrange(7, v@.len() as int));
        let (a, b) = trim_range(v.as_slice(), 7, v.len());
        Some(header.substring_char(a, b))
    } else {
        None
    }
}

/// Whether an `Authorization` header value starts with `"Bearer "`.
pub fn is_bearer_header(header: &str) -> (r: bool)
    ensures
        r == has_prefix(header@, "Bearer "@),
{
    proof {
        reveal_strlit("Bearer ");
    }
    let v = chars_of(header);
    let p = chars_of("Bearer ");
    starts_with_chars(v.as_slice(), p.as_slice())
}

/// Only tokens with this prefix are looked up as API keys.
pub open spec fn is_api_key_token(token: Seq<char>) -> bool {
    has_prefix(token, "ask_live_"@)
}

/// Whether a bearer token is shaped like an API key (`ask_live_…`), so that
/// the key store is consulted for it.
pub fn looks_like_api_key(token: &str) -> (r: bool)
    ensures
        r == is_api_key_token(token@),
{
    proof {
        reveal_strlit("ask_live_");
    }
    let v = chars_of(token);
    let p = chars_of("ask_live_");
    starts_with_chars(v.as_slice(), p.as_slice())
}

/// Whether a bearer token equals the configured legacy token, when one is set.
pub fn matches_legacy_token(token: &str, legacy: Option<&str>) -> (r: bool)
    ensures
        r == (legacy is Some && token@ == legacy->0@),
{
    match legacy {
        Some(l) => str_eq(token, l),
        None => false,
    }
}

/// Which source a bearer token resolved from, tried in the order
/// JWT, then API key, then legacy token.
#[derive(Debug, Clone, Copy, PartialEq, Eq)]
pub enum BearerSource {
    Jwt,
    ApiKey,
    Legacy,
    Unresolved,
}

/// The resolution order of a bearer token. `jwt_valid` and `api_key_valid`
/// are what the JWT manager and the key store answered; the key store is only
/// consulted for `ask_live_` tokens, and the legacy token only counts when a
/// legacy context is configured.
pub fn bearer_resolution(
    token: &str,
    jwt_valid: bool,
    api_key_valid: bool,
    legacy_token: Option<&str>,
    legacy_context_present: bool,
) -> (r: BearerSource)
    ensures
        r == (if jwt_valid {
            BearerSource::Jwt
        } else if is_api_key_token(token@) && api_key_valid {
            BearerSource::ApiKey
        } else if legacy_token is Some && token@ == legacy_token->0@ && legacy_context_present {
            BearerSource::Legacy
        } else {
            BearerSource::Unresolved
        }),
{
    if jwt_valid {
        return BearerSource::Jwt;
    }
    if looks_like_api_key(token) && api_key_valid {
        return BearerSource::ApiKey;
    }
    if matches_legacy_token(token, legacy_token) && legacy_context_present {
        return BearerSource::Legacy;
    }
    BearerSource::Unresolved
}

/// How the authentication middleware answers a request.
#[derive(Debug, Clone, Copy, PartialEq, Eq)]
pub enum AuthOutcome {
    /// Authenticated through the `Authorization: Bearer` header.
    Bearer,
    /// Authenticated through the session cookie's JWT.
    SessionCookie,
    /// Unauthenticated browser request: `303 See Other` to `/login`.
    RedirectToLogin,
    /// Unauthenticated API request: `401` with `WWW-Authenticate: Bearer`.
    Unauthorized,
}

/// Whether an `Accept` header asks for HTML.
pub open spec fn accepts_html_spec(accept: Option<&str>) -> bool {
    accept is Some && has_substr(accept->0@, "text/html"@)
}

/// The authentication decision: bearer first, then the session cookie; an
/// unauthenticated request is redirected when it accepts HTML and refused
/// with 401 otherwise.
pub fn auth_outcome(bearer_resolved: bool, cookie_resolved: bool, accept: Option<&str>) -> (r:
    AuthOutcome)
    ensures
        r == (if bearer_resolved {
            AuthOutcome::Bearer
        } else if cookie_resolved {
            AuthOutcome::SessionCookie
        } else if accepts_html_spec(accept) {
            AuthOutcome::RedirectToLogin
        } else {
            AuthOutcome::Unauthorized
        }),
{
    if bearer_resolved {
        return AuthOutcome::Bearer;
    }
    if cookie_resolved {
        return AuthOutcome::SessionCookie;
    }
    proof {
        reveal_strlit("text/html");
    }
    let html = match accept {
        Some(a) => str_contains(a, "text/html"),
        None => false,
    };
    if html {
        AuthOutcome::RedirectToLogin
    } else {
        AuthOutcome::Unauthorized
    }
}

// -- Same-origin check ------------------------------------------------------------

/// The host of an `http://` or `https://` URL: the trimmed text between the
/// scheme and the first `/`, when not empty.
pub open spec fn host_of_url(value: Seq<char>) -> Option<Seq<char>> {
    let t = trim_spec(value);
    if has_prefix(t, "http://"@) {
        host_after_scheme(t.skip(7))
    } else if has_prefix(t, "https://"@) {
        host_after_scheme(t.skip(8))
    } else {
        None
    }
}

/// The trimmed first `/`-segment of `rest`, when not empty.
pub open spec fn host_after_scheme(rest: Seq<char>) -> Option<Seq<char>> {
    let h = trim_spec(first_seg(rest, '/'));
    if h.len() == 0 {
        None
    } else {
        Some(h)
    }
}

/// Host of the first `/`-segment of `v[from..]`, trimmed, when not empty.
fn host_from(v: &[char], from: usize) -> (r: Option<String>)
    requires
        from <= v.len(),
    ensures
        opt_string_view(r) == host_after_scheme(v@.skip(from as int)),
{
    let k = seg_len_exec(v, from, '/');
    let ghost rest = v@.skip(from as int);
    assert(first_seg(rest, '/') =~= v@.subrange(from as int, k as int));
    let (a, b) = trim_range(v, from, k);
    if a == b {
        None
    } else {
        let mut w: Vec<char> = Vec::new();
        let mut i: usize = a;
        while i < b
            invariant
                a <= i <= b <= v.len(),
                w@ == v@.subrange(a as int, i as int),
            decreases b - i,
        {
            w.push(v[i]);
            assert(v@.subrange(a as int, i as int).push(v@[i as int]) =~= v@.subrange(
                a as int,
                i + 1,
            ));
            i = i + 1;
        }
        Some(string_from_chars(w.as_slice()))
    }
}

/// Parses the host out of an `Origin` or `Referer` header value.
pub fn parse_host_from_url(value: &str) -> (r: Option<String>)
    ensures
        opt_string_view(r) == host_of_url(value@),
{
    proof {
        reveal_strlit("http://");
        reveal_strlit("https://");
    }
    let t = trim_str(value);
    let v = chars_of(t);
    let http = chars_of("http://");
    let https = chars_of("https://");
    if starts_with_chars(v.as_slice(), http.as_slice()) {
        host_from(v.as_slice(), 7)
    } else if starts_with_chars(v.as_slice(), https.as_slice()) {
        host_from(v.as_slice(), 8)
    } else {
        None
    }
}

/// Methods that never change state and so bypass the same-origin check.
pub open spec fn is_safe_method(method: Seq<char>) -> bool {
    method == "GET"@ || method == "HEAD"@ || method == "OPTIONS"@
}

/// The host claimed by the request's origin: the `Origin` header's host, or
/// failing that the `Referer` header's host.
pub open spec fn claimed_origin_host(origin: Option<&str>, referer: Option<&str>) -> Option<
    Seq<char>,
> {
    let from_origin = match origin {
        Some(o) => host_of_url(o@),
        None => None,
    };
    if from_origin is Some {
        from_origin
    } else {
        match referer {
            Some(r) => host_of_url(r@),
            None => None,
        }
    }
}

/// Whether a request passes the same-origin check for mutations: safe methods
/// and bearer-authenticated requests pass; otherwise a `Host` header must be
/// present and equal (ignoring ASCII case) to the host of `Origin`, or of
/// `Referer` when `Origin` gives none.
pub open spec fn same_origin_ok(
    method: Seq<char>,
    authorization: Option<&str>,
    host: Option<&str>,
    origin: Option<&str>,
    referer: Option<&str>,
) -> bool {
    if is_safe_method(method) {
        true
    } else if authorization is Some && has_prefix(authorization->0@, "Bearer "@) {
        true
    } else if host is None {
        false
    } else {
        match claimed_origin_host(origin, referer) {
            Some(h) => eq_ignore_ascii_case_spec(h, host->0@),
            None => false,
        }
    }
}

/// Same-origin check for state-changing requests. `true` lets the request
/// through; `false` is answered with `403 Forbidden`.
pub fn require_same_origin_mutation(
    method: &str,
    authorization: Option<&str>,
    host: Option<&str>,
    origin: Option<&str>,
    referer: Option<&str>,
) -> (r: bool)
    ensures
        r == same_origin_ok(method@, authorization, host, origin, referer),
{
    if str_eq(method, "GET") || str_eq(method, "HEAD") || str_eq(method, "OPTIONS") {
        return true;
    }
    let bearer = match authorization {
        Some(a) => is_bearer_header(a),
        None => false,
    };
    if bearer {
        return true;
    }
    let host = match host {
        Some(h) => h,
        None => {
            return false;
        },
    };
    let from_origin = match origin {
        Some(o) => parse_host_from_url(o),
        None => None,
    };
    let claimed = match from_origin {
        Some(h) => Some(h),
        None => match referer {
            Some(r) => parse_host_from_url(r),
            None => None,
        },
    };
    match claimed {
        Some(h) => {
            let hv = chars_of(h.as_str());
            let hostv = chars_of(host);
            eq_ignore_ascii_case(hv.as_slice(), hostv.as_slice())
        },
        None => false,
    }
}

/// The same-origin guard stops exactly the cross-site mutations: a request
/// with a safe method and a bearer-authenticated request always pass, and
/// any other request passes only when the host that its `Origin` (or, failing
/// that, its `Referer`) names is the `Host` it was sent to, ignoring ASCII
/// case.
pub proof fn law_same_origin_guard(
    method: Seq<char>,
    authorization: Option<&str>,
    host: Option<&str>,
    origin: Option<&str>,
    referer: Option<&str>,
)
    ensures
        is_safe_method(method) ==> same_origin_ok(method, authorization, host, origin, referer),
        (authorization is Some && has_prefix(authorization->0@, "Bearer "@)) ==> same_origin_ok(
            method,
            authorization,
            host,
            origin,
            referer,
        ),
        (!is_safe_method(method) && !(authorization is Some && has_prefix(
            authorization->0@,
            "Bearer "@,
        ))) ==> (same_origin_ok(method, authorization, host, origin, referer) <==> ({
            let claimed = claimed_origin_host(origin, referer);
            &&& host is Some
            &&& claimed is Some
            &&& eq_ignore_ascii_case_spec(claimed->0, host->0@)
        })),
{
}

// -- Login and logout -----------------------------------------------------------

/// The name shown for a signed-in identity: its email, or its user id when
/// the email is empty.
pub fn session_display_name(email: &str, user_id: &str) -> (r: String)
    ensures
        r@ == (if email@.len() == 0 {
            user_id@
        } else {
            email@
        }),
{
    if email.is_empty() {
        to_owned_string(user_id)
    } else {
        to_owned_string(email)
    }
}

/// The `; Secure` cookie attribute, present when cookies are marked secure.
pub open spec fn secure_attr(secure: bool) -> Seq<char> {
    if secure {
        "; Secure"@
    } else {
        Seq::empty()
    }
}

/// `Set-Cookie` value that installs the session JWT.
pub open spec fn session_cookie_spec(jwt: Seq<char>, max_age: Seq<char>, secure: bool) -> Seq<
    char,
> {
    "assistant_session="@ + jwt + "; HttpOnly; SameSite=Lax; Path=/; Max-Age="@ + max_age
        + secure_attr(secure)
}

/// Decimal digits of `n`.
pub open spec fn decimal(n: nat) -> Seq<char>
    decreases n,
{
    if n < 10 {
        seq![digit_char(n)]
    } else {
        decimal(n / 10).push(digit_char(n % 10))
    }
}

/// The ASCII digit for `d < 10`.
pub open spec fn digit_char(d: nat) -> char {
    (('0' as nat) + d) as char
}

/// Decimal rendering of an unsigned integer.
pub fn u64_to_decimal(n: u64) -> (r: String)
    ensures
        r@ == decimal(n as nat),
    decreases n,
{
    let d: u8 = (n % 10) as u8;
    let c: char = (48u8 + d) as char;
    if n < 10 {
        let mut s = String::new();
        push_char(&mut s, c);
        assert(s@ =~= seq![digit_char(n as nat)]);
        s
    } else {
        let mut s = u64_to_decimal(n / 10);
        push_char(&mut s, c);
        s
    }
}

/// The `Set-Cookie` header that installs a session JWT for `ttl_secs`
/// seconds.
pub fn session_cookie_header(jwt: &str, ttl_secs: u64, secure: bool) -> (r: String)
    ensures
        r@ == session_cookie_spec(jwt@, decimal(ttl_secs as nat), secure),
{
    let mut s = to_owned_string("assistant_session=");
    s.append(jwt);
    s.append("; HttpOnly; SameSite=Lax; Path=/; Max-Age=");
    let age = u64_to_decimal(ttl_secs);
    s.append(age.as_str());
    if secure {
        s.append("; Secure");
    }
    s
}

/// The `Set-Cookie` header that clears the session cookie on logout.
pub fn logout_cookie_header(secure: bool) -> (r: String)
    ensures
        r@ == "assistant_session=; HttpOnly; SameSite=Lax; Path=/; Max-Age=0"@ + secure_attr(
            secure,
        ),
{
    let mut s = to_owned_string("assistant_session=; HttpOnly; SameSite=Lax; Path=/; Max-Age=0");
    if secure {
        s.append("; Secure");
    }
    s
}


// -- Login page -------------------------------------------------------------------

/// The login page up to the place of the error message.
pub const LOGIN_PAGE_HEAD: &'static str = r#"<!doctype html>
<html lang="en">
<head>
  <meta charset="utf-8"/>
  <meta name="viewport" content="width=device-width, initial-scale=1"/>
  <title>Login - Assistant</title>
  <style>
    body{margin:0;background:#030712;color:#e5e9f0;font-family:system-ui,sans-serif}
    .login-container{display:flex;align-items:center;justify-content:center;min-height:100vh;padding:2rem}
    .login-card{background:#0a1628;border:1px solid #0b1b32;border-radius:12px;padding:2.5rem;width:100%;max-width:400px}
    .login-brand p{text-transform:uppercase;letter-spacing:.2em;color:#7aa2ff;margin:0 0 .2rem;font-size:.75rem}
    .login-brand h2{margin:0;color:#e5e9f0}
    .login-error{background:rgba(239,68,68,.15);border:1px solid rgba(239,68,68,.3);color:#fca5a5;padding:.75rem 1rem;border-radius:8px;margin-bottom:1.5rem;font-size:.9rem}
    .login-form{display:flex;flex-direction:column;gap:.75rem;margin-top:1.5rem}
    .login-form label{font-size:.85rem;color:#8aa5d8;text-transform:uppercase;letter-spacing:.08em}
    .login-form input{background:#030712;border:1px solid #1a2744;border-radius:8px;padding:.7rem 1rem;color:#e5e9f0;font-size:1rem;outline:none}
    .login-form input:focus{border-color:#6ec6ff}
    .login-form button{background:#2563eb;color:#fff;border:none;border-radius:8px;padding:.7rem;font-size:1rem;cursor:pointer;margin-top:.5rem}
    .login-form button:hover{background:#1d4ed8}
  </style>
</head>
<body>
  <div class="login-container">
    <div class="login-card">
      <div class="login-brand"><p>assistant</p><h2>Agent Manager</h2></div>
      "#;

/// The login page after the place of the error message.
pub const LOGIN_PAGE_TAIL: &'static str = r#"
      <form method="POST" action="/login" class="login-form">
        <label for="token">Auth Token</label>
        <input type="password" id="token" name="token" placeholder="Enter your token" required autofocus/>
        <button type="submit">Sign in</button>
      </form>
    </div>
  </div>
</body>
</html>"#;

/// The error block of the login page: an alert with the message, or
/// nothing.
pub open spec fn login_error_block(error: Option<Seq<char>>) -> Seq<char> {
    match error {
        Some(msg) => "<div class=\"login-error\" id=\"login-error\" role=\"alert\">"@ + msg
            + "</div>"@,
        None => Seq::empty(),
    }
}

/// The login form, with an error message when one is given.
pub fn login_html(error: Option<&str>) -> (r: String)
    ensures
        r@ == LOGIN_PAGE_HEAD@ + login_error_block(match error {
            Some(e) => Some(e@),
            None => None,
        }) + LOGIN_PAGE_TAIL@,
{
    let mut s = to_owned_string(LOGIN_PAGE_HEAD);
    match error {
        Some(msg) => {
            s.append("<div class=\"login-error\" id=\"login-error\" role=\"alert\">");
            s.append(msg);
            s.append("</div>");
        },
        None => {},
    }
    s.append(LOGIN_PAGE_TAIL);
    s
}

/// The login form after a submitted token did not resolve.
pub fn login_rejected() -> (r: String)
    ensures
        r@ == LOGIN_PAGE_HEAD@ + login_error_block(Some("Invalid token."@)) + LOGIN_PAGE_TAIL@,
{
    login_html(Some("Invalid token."))
}

/// The login form after the session token could not be signed.
pub fn login_failed() -> (r: String)
    ensures
        r@ == LOGIN_PAGE_HEAD@ + login_error_block(Some("Internal error."@)) + LOGIN_PAGE_TAIL@,
{
    login_html(Some("Internal error."))
}


// -- Scope checks -------------------------------------------------------------------

/// How a scope-guarded route answers.
#[derive(Debug, Clone)]
pub enum ScopeVerdict {
    /// No authenticated caller: `401` with `WWW-Authenticate: Bearer`.
    Unauthorized,
    /// The caller lacks the scope: `403` with this message.
    Forbidden(String),
    /// The request goes on to the route.
    Allowed,
}

/// The answer of a scope-guarded route: without an authenticated caller,
/// `401`; when the scope check failed, `403` naming the resource, action
/// and space that were required (as their text forms display them).
pub fn scope_verdict(caller_present: bool, missing: Option<(&str, &str, &str)>) -> (r: ScopeVerdict)
    ensures
        !caller_present ==> r is Unauthorized,
        caller_present && missing is None ==> r is Allowed,
        caller_present && missing is Some ==> r is Forbidden && ({
            let (res, act, space) = missing->0;
            r->Forbidden_0@ == "insufficient permissions: requires "@ + res@ + ":"@ + act@
                + " in space "@ + space@
        }),
{
    if !caller_present {
        return ScopeVerdict::Unauthorized;
    }
    match missing {
        None => ScopeVerdict::Allowed,
        Some((res, act, space)) => {
            let mut m = to_owned_string("insufficient permissions: requires ");
            m.append(res);
            m.append(":");
            m.append(act);
            m.append(" in space ");
            m.append(space);
            ScopeVerdict::Forbidden(m)
        },
    }
}

} // verus!
