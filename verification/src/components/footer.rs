//! Footer decisions: the version text and the release-notes link.

use vstd::prelude::*;
use crate::text::{
    chars_of, extend_chars, extend_str, is_whitespace_spec, string_of, trim, trim_spec,
};

verus! {

/// Prefix of every studio2201 repository URL.
pub open spec fn github_org_url() -> Seq<char> {
    "https://github.com/studio2201/"@
}

/// A version without surrounding whitespace and without one leading `v`
/// or `V`.
pub open spec fn normalize_version_spec(version: Seq<char>) -> Seq<char> {
    let t = trim_spec(version);
    if t.len() > 0 && (t[0] == 'v' || t[0] == 'V') {
        t.drop_first()
    } else {
        t
    }
}

/// The trimmed text of an optional value, absent when it is missing or
/// blank.
pub open spec fn nonblank_spec(value: Option<Seq<char>>) -> Option<Seq<char>> {
    match value {
        Some(s) => if trim_spec(s).len() > 0 {
            Some(trim_spec(s))
        } else {
            None
        },
        None => None,
    }
}

/// The view of an optional `&str`.
pub open spec fn opt_view(value: Option<&str>) -> Option<Seq<char>> {
    match value {
        Some(s) => Some(s@),
        None => None,
    }
}

/// The footer version link: an explicit non-blank release-notes URL, else
/// the GitHub release tag of `repo` for the normalized version when both
/// are non-blank, else none.
pub open spec fn version_href_spec(
    version_url: Option<Seq<char>>,
    repo: Option<Seq<char>>,
    version: Seq<char>,
) -> Option<Seq<char>> {
    match nonblank_spec(version_url) {
        Some(url) => Some(url),
        None => match nonblank_spec(repo) {
            None => None,
            Some(r) => {
                let tag = normalize_version_spec(version);
                if tag.len() == 0 {
                    None
                } else {
                    Some(github_org_url() + r + "/releases/tag/v"@ + tag)
                }
            },
        },
    }
}

/// The version text shown in the footer: `v` and the normalized version,
/// or nothing when the version is hidden or blank.
pub open spec fn version_display_spec(show: bool, version: Seq<char>) -> Option<Seq<char>> {
    if !show || trim_spec(version).len() == 0 {
        None
    } else {
        Some("v"@ + normalize_version_spec(version))
    }
}

/// The trimmed, non-blank text of `value`, if any.
pub fn nonblank(value: Option<&str>) -> (r: Option<Vec<char>>)
    ensures
        match r {
            Some(v) => nonblank_spec(opt_view(value)) == Some(v@),
            None => nonblank_spec(opt_view(value)) is None,
        },
{
    match value {
        Some(s) => {
            let c = chars_of(s);
            let t = trim(&c);
            if t.len() > 0 {
                Some(t)
            } else {
                None
            }
        },
        None => None,
    }
}

fn normalize_chars(version: &str) -> (r: Vec<char>)
    ensures
        r@ == normalize_version_spec(version@),
{
    let c = chars_of(version);
    let t = trim(&c);
    if t.len() > 0 && (t[0] == 'v' || t[0] == 'V') {
        let mut out: Vec<char> = Vec::new();
        let mut i: usize = 1;
        while i < t.len()
            invariant
                1 <= i <= t@.len(),
                out@ == t@.subrange(1, i as int),
            decreases t@.len() - i,
        {
            out.push(t[i]);
            assert(t@.subrange(1, i as int).push(t@[i as int]) =~= t@.subrange(1, i + 1));
            i = i + 1;
        }
        assert(t@.subrange(1, t@.len() as int) =~= t@.drop_first());
        out
    } else {
        t
    }
}

/// Normalize a version for display and tag URLs: trim it and strip one
/// leading `v`/`V`.
pub fn normalize_version_tag(version: &str) -> (r: String)
    ensures
        r@ == normalize_version_spec(version@),
{
    let n = normalize_chars(version);
    string_of(&n)
}

/// Build the footer version `href` (a GitHub release tag when possible).
///
/// Priority:
/// 1. explicit non-blank `version_url` (trimmed)
/// 2. `https://github.com/studio2201/{repo}/releases/tag/v{version}` when
///    both `repo` and the normalized `version` are non-empty
/// 3. `None` (the version renders as plain text)
pub fn resolve_version_href(version_url: Option<&str>, repo: Option<&str>, version: &str) -> (r:
    Option<String>)
    ensures
        match r {
            Some(s) => version_href_spec(opt_view(version_url), opt_view(repo), version@) == Some(
                s@,
            ),
            None => version_href_spec(opt_view(version_url), opt_view(repo), version@) is None,
        },
{
    if let Some(url) = nonblank(version_url) {
        return Some(string_of(&url));
    }
    let r = match nonblank(repo) {
        Some(r) => r,
        None => return None,
    };
    let tag = normalize_chars(version);
    if tag.len() == 0 {
        return None;
    }
    let mut out: Vec<char> = Vec::new();
    extend_str(&mut out, "https://github.com/studio2201/");
    extend_chars(&mut out, &r);
    extend_str(&mut out, "/releases/tag/v");
    extend_chars(&mut out, &tag);
    Some(string_of(&out))
}

/// The version text for the footer: `v{normalized version}`, or `None`
/// when `show` is off or the version is blank.
pub fn version_display(show: bool, version: &str) -> (r: Option<String>)
    ensures
        match r {
            Some(s) => version_display_spec(show, version@) == Some(s@),
            None => version_display_spec(show, version@) is None,
        },
{
    if !show {
        return None;
    }
    let c = chars_of(version);
    let t = trim(&c);
    if t.len() == 0 {
        return None;
    }
    let tag = normalize_chars(version);
    let mut out: Vec<char> = Vec::new();
    extend_str(&mut out, "v");
    extend_chars(&mut out, &tag);
    Some(string_of(&out))
}

/// A leading `v` makes no difference: a version given as `v0.1.1` and one
/// given as `0.1.1` normalize alike, so a release-tag link never reads
/// `vv0.1.1`.
pub proof fn law_leading_v_ignored(x: Seq<char>)
    requires
        x.len() > 0,
        !is_whitespace_spec(x[0]),
        !is_whitespace_spec(x.last()),
        x[0] != 'v' && x[0] != 'V',
    ensures
        normalize_version_spec(x) == x,
        normalize_version_spec(seq!['v'] + x) == x,
        normalize_version_spec(seq!['V'] + x) == x,
{
    let vx = seq!['v'] + x;
    let cx = seq!['V'] + x;
    assert(vx.last() == x.last());
    assert(cx.last() == x.last());
    assert(vx.drop_first() =~= x);
    assert(cx.drop_first() =~= x);
}

} // verus!
