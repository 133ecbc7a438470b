//! CSRF origin-check helpers used by every state-changing handler.
//!
//! `origin_matches` compares an `Origin` header value with the configured
//! base URL; `strip_scheme` drops an `http://` / `https://` scheme; and
//! `null_origin_allowed` decides the `Origin: null` opt-in from the value of
//! the `ALLOW_NULL_ORIGIN` setting.

use vstd::prelude::*;
use crate::text::{
    all_ascii_digits, all_digits, chars_eq, chars_eq_str, chars_of, eq_ignore_ascii_case,
    eq_ignore_ascii_case_spec, has_prefix, starts_with, suffix_from,
};

verus! {

/// Name of the setting that enables the `Origin: null` bypass for `curl`
/// clients. Off unless set to a truthy value.
pub const ALLOW_NULL_ORIGIN_ENV: &'static str = "ALLOW_NULL_ORIGIN";

/// What follows a development host in an origin: nothing, or `:` and a
/// non-empty run of ASCII digits (a port).
pub open spec fn is_port_suffix(rest: Seq<char>) -> bool {
    rest.len() == 0 || (rest.len() > 1 && rest[0] == ':' && all_ascii_digits(rest.drop_first()))
}

/// `base` is on the development host `host` and `origin` is the same
/// scheme and host, on no port or on any port.
pub open spec fn dev_host_match(origin: Seq<char>, base: Seq<char>, host: Seq<char>) -> bool {
    &&& starts_with(base, host)
    &&& starts_with(origin, host)
    &&& is_port_suffix(origin.skip(host.len() as int))
}

/// The development hosts, each with its scheme: `localhost` and
/// `127.0.0.1`, over `http` or `https`.
pub open spec fn is_dev_host(host: Seq<char>) -> bool {
    ||| host == "http://localhost"@
    ||| host == "http://127.0.0.1"@
    ||| host == "https://localhost"@
    ||| host == "https://127.0.0.1"@
}

/// `origin` passes against `base`: equal, or `base` is on a development
/// host (`localhost` or `127.0.0.1`, over `http` or `https`) and the origin
/// is the same scheme and host on any port.
pub open spec fn origin_matches_spec(origin: Seq<char>, base: Seq<char>) -> bool {
    ||| origin == base
    ||| exists|host: Seq<char>| is_dev_host(host) && #[trigger] dev_host_match(origin, base, host)
}

/// `origin` with one leading `http://` or else `https://` removed.
pub open spec fn strip_scheme_spec(origin: Seq<char>) -> Seq<char> {
    if starts_with(origin, "http://"@) {
        origin.skip("http://"@.len() as int)
    } else if starts_with(origin, "https://"@) {
        origin.skip("https://"@.len() as int)
    } else {
        origin
    }
}

/// The values that switch the `Origin: null` bypass on: `true`, `1` or
/// `on`, ignoring ASCII case.
pub open spec fn is_truthy_null_origin(value: Seq<char>) -> bool {
    ||| eq_ignore_ascii_case_spec(value, "true"@)
    ||| value == "1"@
    ||| eq_ignore_ascii_case_spec(value, "on"@)
}

fn dev_host_matches(origin: &[char], base: &[char], host: &[char]) -> (r: bool)
    ensures
        r == dev_host_match(origin@, base@, host@),
{
    if !has_prefix(base, host) || !has_prefix(origin, host) {
        return false;
    }
    let rest = suffix_from(origin, host.len());
    if rest.len() == 0 {
        return true;
    }
    if rest.len() > 1 && rest[0] == ':' {
        let port = suffix_from(&rest, 1);
        assert(port@ =~= rest@.drop_first());
        return all_digits(&port);
    }
    false
}

/// Match `origin` against `base`. Pass when exact, or when `base` is on
/// `localhost` / `127.0.0.1` (over `http` or `https`) and the origin is the
/// same scheme and host on any port (developer ergonomics).
pub fn origin_matches(origin: &str, base: &str) -> (r: bool)
    ensures
        r == origin_matches_spec(origin@, base@),
{
    let o = chars_of(origin);
    let b = chars_of(base);
    if chars_eq(&o, &b) {
        return true;
    }
    let h1 = chars_of("http://localhost");
    let h2 = chars_of("http://127.0.0.1");
    let h3 = chars_of("https://localhost");
    let h4 = chars_of("https://127.0.0.1");
    let r = dev_host_matches(&o, &b, &h1) || dev_host_matches(&o, &b, &h2) || dev_host_matches(
        &o,
        &b,
        &h3,
    ) || dev_host_matches(&o, &b, &h4);
    proof {
        if r {
            if dev_host_match(o@, b@, h1@) {
                assert(is_dev_host(h1@));
            } else if dev_host_match(o@, b@, h2@) {
                assert(is_dev_host(h2@));
            } else if dev_host_match(o@, b@, h3@) {
                assert(is_dev_host(h3@));
            } else {
                assert(is_dev_host(h4@));
            }
        }
    }
    r
}

/// Strip the scheme from an `Origin` header value, returning the host (or
/// `host:port`) portion.
pub fn strip_scheme(origin: &str) -> (r: &str)
    ensures
        r@ == strip_scheme_spec(origin@),
{
    let o = chars_of(origin);
    let http = chars_of("http://");
    if has_prefix(&o, &http) {
        return origin.substring_char(http.len(), o.len());
    }
    let https = chars_of("https://");
    if has_prefix(&o, &https) {
        return origin.substring_char(https.len(), o.len());
    }
    origin
}

/// Whether the `ALLOW_NULL_ORIGIN` value `value` (absent when unset)
/// switches the `Origin: null` bypass on: `true`, `1` or `on`, in any
/// ASCII case.
pub fn null_origin_allowed(value: Option<&str>) -> (r: bool)
    ensures
        r == match value {
            Some(v) => is_truthy_null_origin(v@),
            None => false,
        },
{
    match value {
        None => false,
        Some(v) => {
            let c = chars_of(v);
            let t = chars_of("true");
            let on = chars_of("on");
            eq_ignore_ascii_case(&c, &t) || chars_eq_str(&c, "1") || eq_ignore_ascii_case(&c, &on)
        },
    }
}

/// An origin always matches itself.
pub proof fn law_origin_matches_itself(origin: Seq<char>)
    ensures
        origin_matches_spec(origin, origin),
{
}

/// Away from the development hosts there is no leeway: when `base` is on
/// neither `localhost` nor `127.0.0.1` (over `http` or `https`), an origin
/// matches exactly when it equals `base`.
pub proof fn law_exact_outside_dev_hosts(origin: Seq<char>, base: Seq<char>)
    requires
        forall|host: Seq<char>| is_dev_host(host) ==> !starts_with(base, host),
    ensures
        origin_matches_spec(origin, base) <==> origin == base,
{
}

/// On a development host any port of the same scheme and host passes.
pub proof fn law_dev_host_any_port(host: Seq<char>, base: Seq<char>, port: Seq<char>)
    requires
        is_dev_host(host),
        starts_with(base, host),
        port.len() > 0,
        all_ascii_digits(port),
    ensures
        origin_matches_spec(host + seq![':'] + port, base),
{
    let o = host + seq![':'] + port;
    assert(o.take(host.len() as int) =~= host);
    assert(o.skip(host.len() as int) =~= seq![':'] + port);
    assert((seq![':'] + port).drop_first() =~= port);
    assert(dev_host_match(o, base, host));
}

/// Stripping the scheme leaves a suffix of the origin.
pub proof fn law_strip_scheme_suffix(origin: Seq<char>)
    ensures
        strip_scheme_spec(origin).len() <= origin.len(),
        strip_scheme_spec(origin) == origin.skip(origin.len() - strip_scheme_spec(origin).len()),
{
    assert(origin.skip(0) =~= origin);
}

} // verus!
