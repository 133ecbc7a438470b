//! The authentication cookie used by every auth-flow handler, so cookie
//! semantics stay identical across login, verify and logout endpoints.
//!
//! `build_cookie` and `build_clear_cookie` describe the cookie as an
//! `AuthCookie`; `AuthCookie::to_cookie` hands it to `axum_extra` as a
//! `Cookie` for the response.

use vstd::prelude::*;
use crate::text::{chars_of, eq_ignore_ascii_case, eq_ignore_ascii_case_spec, has_prefix, starts_with};

verus! {

#[verifier::external_type_specification]
#[verifier::external_body]
pub struct ExCookie<'c>(axum_extra::extract::cookie::Cookie<'c>);

#[verifier::external_type_specification]
#[verifier::external_body]
#[verifier::reject_recursive_types(T)]
pub struct ExHeaderMap<T>(axum::http::HeaderMap<T>);

#[verifier::external_type_specification]
#[verifier::external_body]
pub struct ExHeaderValue(axum::http::HeaderValue);

/// One minute, in seconds: the floor for the cookie lifetime when the
/// configured value is nonsensical (zero or negative).
pub const MIN_LIFETIME_SECONDS: u64 = 60;

/// Thirty days, in seconds: the ceiling for the cookie lifetime so a
/// misconfigured `cookie_max_age_hours` cannot pin a session forever.
pub const MAX_LIFETIME_SECONDS: u64 = 2592000;

/// The `SameSite` attribute of a cookie.
#[derive(Clone, Copy, Debug, PartialEq, Eq, Structural)]
pub enum SameSite {
    Strict,
    Lax,
}

/// The attributes of an authentication `Set-Cookie`.
#[derive(Clone, Debug)]
pub struct AuthCookie {
    pub name: String,
    pub value: String,
    pub path: String,
    pub http_only: bool,
    pub secure: bool,
    pub same_site: SameSite,
    pub max_age_seconds: i64,
}

/// A lifetime in seconds clamped to `[MIN_LIFETIME_SECONDS, MAX_LIFETIME_SECONDS]`.
pub open spec fn clamp_seconds_spec(seconds: int) -> int {
    if seconds < MIN_LIFETIME_SECONDS {
        MIN_LIFETIME_SECONDS as int
    } else if seconds > MAX_LIFETIME_SECONDS {
        MAX_LIFETIME_SECONDS as int
    } else {
        seconds
    }
}

/// The `HttpOnly`, `Path=/`, `SameSite=Strict` cookie `name=value` with the
/// given `Secure` flag and `Max-Age`.
pub open spec fn is_auth_cookie(
    c: AuthCookie,
    name: Seq<char>,
    value: Seq<char>,
    secure: bool,
    max_age_seconds: int,
) -> bool {
    &&& c.name@ == name
    &&& c.value@ == value
    &&& c.path@ == "/"@
    &&& c.http_only
    &&& c.secure == secure
    &&& c.same_site == SameSite::Strict
    &&& c.max_age_seconds == max_age_seconds
}

/// Whether an auth cookie must be marked `Secure`, given the
/// `X-Forwarded-Proto` header value (if any) and the configured base URL.
pub open spec fn cookie_secure_spec(forwarded_proto: Option<Seq<char>>, base_url: Seq<char>) -> bool {
    ||| (forwarded_proto matches Some(p) && eq_ignore_ascii_case_spec(p, "https"@))
    ||| starts_with(base_url, "https"@)
}

/// Clamp a lifetime in seconds to `[MIN_LIFETIME_SECONDS, MAX_LIFETIME_SECONDS]`.
pub fn clamp_seconds(seconds: i64) -> (r: u64)
    ensures
        r == clamp_seconds_spec(seconds as int),
        MIN_LIFETIME_SECONDS <= r <= MAX_LIFETIME_SECONDS,
{
    if seconds <= 0 {
        return MIN_LIFETIME_SECONDS;
    }
    let unsigned = seconds as u64;
    if unsigned < MIN_LIFETIME_SECONDS {
        return MIN_LIFETIME_SECONDS;
    }
    if unsigned > MAX_LIFETIME_SECONDS {
        return MAX_LIFETIME_SECONDS;
    }
    unsigned
}

/// Construct an authentication cookie carrying `value` under `cookie_name`.
///
/// `max_age_hours` comes from the server configuration; the lifetime is
/// clamped to `[1 minute, 30 days]` so a typo cannot issue a zero-second or
/// multi-year cookie.
pub fn build_cookie(cookie_name: &str, value: &str, max_age_hours: i64, secure: bool) -> (c:
    AuthCookie)
    ensures
        is_auth_cookie(
            c,
            cookie_name@,
            value@,
            secure,
            clamp_seconds_spec(max_age_hours * 3600),
        ),
{
    let seconds: i64 = match max_age_hours.checked_mul(3600) {
        Some(s) => s,
        None => if max_age_hours < 0 {
            i64::MIN
        } else {
            i64::MAX
        },
    };
    let max_age = clamp_seconds(seconds);
    AuthCookie {
        name: String::from_str(cookie_name),
        value: String::from_str(value),
        path: String::from_str("/"),
        http_only: true,
        secure,
        same_site: SameSite::Strict,
        max_age_seconds: max_age as i64,
    }
}

/// Build the expired cookie used to clear the session on logout: empty
/// value, `Max-Age=0`.
pub fn build_clear_cookie(cookie_name: &str, secure: bool) -> (c: AuthCookie)
    ensures
        is_auth_cookie(c, cookie_name@, Seq::empty(), secure, 0),
{
    AuthCookie {
        name: String::from_str(cookie_name),
        value: String::new(),
        path: String::from_str("/"),
        http_only: true,
        secure,
        same_site: SameSite::Strict,
        max_age_seconds: 0,
    }
}

/// What a header map holds: for each header name (in lower case, as
/// `HeaderMap` stores names), the bytes of the values stored under it, in
/// insertion order.
pub uninterp spec fn header_values(headers: axum::http::HeaderMap) -> Map<Seq<char>, Seq<Seq<u8>>>;

/// The first value stored under `name`, as `HeaderMap::get` returns it.
pub open spec fn first_header_value(values: Map<Seq<char>, Seq<Seq<u8>>>, name: Seq<char>) -> Option<
    Seq<u8>,
> {
    if values.dom().contains(name) && values[name].len() > 0 {
        Some(values[name][0])
    } else {
        None
    }
}

/// A byte `HeaderValue::to_str` accepts: visible ASCII or a tab.
pub open spec fn is_visible_ascii(b: u8) -> bool {
    (32 <= b && b < 127) || b == 9
}

/// The text of a header value when every byte is visible ASCII (what
/// `HeaderValue::to_str` accepts), else `None`.
pub open spec fn header_text(bytes: Seq<u8>) -> Option<Seq<char>> {
    if forall|i: int| 0 <= i < bytes.len() ==> is_visible_ascii(#[trigger] bytes[i]) {
        Some(bytes.map_values(|b: u8| b as char))
    } else {
        None
    }
}

/// The `X-Forwarded-Proto` text of a header map: its first value under
/// `x-forwarded-proto`, when that value is visible ASCII.
pub open spec fn forwarded_proto_spec(values: Map<Seq<char>, Seq<Seq<u8>>>) -> Option<Seq<char>> {
    match first_header_value(values, "x-forwarded-proto"@) {
        Some(b) => header_text(b),
        None => None,
    }
}

/// The value of the `x-forwarded-proto` header in `headers`:
/// `HeaderMap::get` (the first value stored under that name), then
/// `HeaderValue::to_str` (which refuses any byte that is not visible ASCII
/// or a tab), then `to_string`.
#[verifier::external_body]
fn forwarded_proto(headers: &axum::http::HeaderMap) -> (r: Option<String>)
    ensures
        match forwarded_proto_spec(header_values(*headers)) {
            Some(t) => r matches Some(s) && s@ == t,
            None => r is None,
        },
{
    headers.get("x-forwarded-proto").and_then(|v| v.to_str().ok()).map(|s| s.to_string())
}

/// Decide `Secure` from the `X-Forwarded-Proto` value (`https` in any ASCII
/// case) or, failing that, from a `base_url` that starts with `https`.
pub fn secure_from_parts(forwarded_proto: Option<&str>, base_url: &str) -> (r: bool)
    ensures
        r == cookie_secure_spec(
            match forwarded_proto {
                Some(p) => Some(p@),
                None => None,
            },
            base_url@,
        ),
{
    let from_header = match forwarded_proto {
        Some(p) => {
            let pc = chars_of(p);
            let https = chars_of("https");
            eq_ignore_ascii_case(&pc, &https)
        },
        None => false,
    };
    let base = chars_of(base_url);
    let https = chars_of("https");
    from_header || has_prefix(&base, &https)
}

/// Decide whether an auth cookie should be marked `Secure`. Trust, in
/// order: the `X-Forwarded-Proto: https` header (when the request is from a
/// trusted proxy, enforced by the caller), then the configured `base_url`
/// scheme.
pub fn cookie_should_be_secure(headers: &axum::http::HeaderMap, base_url: &str) -> (r: bool)
    ensures
        r == cookie_secure_spec(forwarded_proto_spec(header_values(*headers)), base_url@),
{
    let proto = forwarded_proto(headers);
    match &proto {
        Some(p) => secure_from_parts(Some(p.as_str()), base_url),
        None => secure_from_parts(None, base_url),
    }
}

/// The text of a `SameSite` attribute, as a `Set-Cookie` header spells it.
pub open spec fn same_site_name(s: SameSite) -> Seq<char> {
    match s {
        SameSite::Strict => "Strict"@,
        SameSite::Lax => "Lax"@,
    }
}

/// What an `axum_extra` cookie reports through its getters: `name()`,
/// `value()`, `path()`, `http_only()`, `secure()`, `same_site()` (the
/// attribute's text) and `max_age()` (in whole seconds).
pub uninterp spec fn cookie_attrs(c: axum_extra::extract::cookie::Cookie<'static>) -> (
    Seq<char>,
    Seq<char>,
    Option<Seq<char>>,
    Option<bool>,
    Option<bool>,
    Option<Seq<char>>,
    Option<int>,
);

/// The getter readings of the cookie an `AuthCookie` describes: each
/// attribute as it was set.
pub open spec fn auth_cookie_attrs(c: AuthCookie) -> (
    Seq<char>,
    Seq<char>,
    Option<Seq<char>>,
    Option<bool>,
    Option<bool>,
    Option<Seq<char>>,
    Option<int>,
) {
    (
        c.name@,
        c.value@,
        Some(c.path@),
        Some(c.http_only),
        Some(c.secure),
        Some(same_site_name(c.same_site)),
        Some(c.max_age_seconds as int),
    )
}

/// Hands the attributes to `axum_extra`'s cookie builder:
/// `Cookie::build((name, value))`, then `path`, `http_only`, `secure`,
/// `same_site` and `max_age` (`time::Duration::seconds`), then `build`.
/// Trusted: the built cookie reports each attribute as it was set (each
/// builder step stores its value, and each getter returns it).
#[verifier::external_body]
fn make_cookie(
    name: &str,
    value: &str,
    path: &str,
    http_only: bool,
    secure: bool,
    same_site: SameSite,
    max_age_seconds: i64,
) -> (r: axum_extra::extract::cookie::Cookie<'static>)
    ensures
        cookie_attrs(r) == (
            name@,
            value@,
            Some(path@),
            Some(http_only),
            Some(secure),
            Some(same_site_name(same_site)),
            Some(max_age_seconds as int),
        ),
{
    let same_site = match same_site {
        SameSite::Strict => axum_extra::extract::cookie::SameSite::Strict,
        SameSite::Lax => axum_extra::extract::cookie::SameSite::Lax,
    };
    axum_extra::extract::cookie::Cookie::build((name.to_string(), value.to_string()))
        .path(path.to_string())
        .http_only(http_only)
        .secure(secure)
        .same_site(same_site)
        .max_age(time::Duration::seconds(max_age_seconds))
        .build()
}

impl AuthCookie {
    /// The cookie's name.
    pub fn name(&self) -> (r: &str)
        ensures
            r@ == self.name@,
    {
        self.name.as_str()
    }

    /// The cookie's value.
    pub fn value(&self) -> (r: &str)
        ensures
            r@ == self.value@,
    {
        self.value.as_str()
    }

    /// The cookie's `Path` attribute.
    pub fn path(&self) -> (r: Option<&str>)
        ensures
            r matches Some(p) && p@ == self.path@,
    {
        Some(self.path.as_str())
    }

    /// The cookie's `HttpOnly` flag.
    pub fn http_only(&self) -> (r: Option<bool>)
        ensures
            r == Some(self.http_only),
    {
        Some(self.http_only)
    }

    /// The cookie's `Secure` flag.
    pub fn secure(&self) -> (r: Option<bool>)
        ensures
            r == Some(self.secure),
    {
        Some(self.secure)
    }

    /// The cookie's `Max-Age`, in seconds.
    pub fn max_age_seconds(&self) -> (r: Option<i64>)
        ensures
            r == Some(self.max_age_seconds),
    {
        Some(self.max_age_seconds)
    }

    /// The cookie as an `axum_extra` `Cookie`, ready for a `Set-Cookie`
    /// response header: it reports exactly this cookie's attributes.
    pub fn to_cookie(&self) -> (r: axum_extra::extract::cookie::Cookie<'static>)
        ensures
            cookie_attrs(r) == auth_cookie_attrs(*self),
    {
        make_cookie(
            self.name.as_str(),
            self.value.as_str(),
            self.path.as_str(),
            self.http_only,
            self.secure,
            self.same_site,
            self.max_age_seconds,
        )
    }
}

/// Cookie lifetimes stay within `[1 minute, 30 days]`, and a lifetime in
/// that range is kept as configured.
pub proof fn law_cookie_lifetime_clamped(max_age_hours: int)
    ensures
        MIN_LIFETIME_SECONDS <= clamp_seconds_spec(max_age_hours * 3600) <= MAX_LIFETIME_SECONDS,
        1 <= max_age_hours <= 720 ==> clamp_seconds_spec(max_age_hours * 3600) == max_age_hours
            * 3600,
        max_age_hours <= 0 ==> clamp_seconds_spec(max_age_hours * 3600) == MIN_LIFETIME_SECONDS,
{
}

} // verus!
