//! Pattern matching and hashing used by the maintenance checks: regular
//! expressions (the `regex` crate) and MD5 digests (the `md-5` crate).

use vstd::prelude::*;
use md5::Digest;
use crate::hex::{hex_lower, hex_lower_spec};
use crate::text::{chars_of, extend_str, string_of};

verus! {

/// What `regex::Regex::new(pattern)` then `is_match(text)` gives: whether
/// the pattern matches somewhere in `text`, or `None` when the pattern
/// does not compile.
pub uninterp spec fn regex_is_match_result(pattern: Seq<char>, text: Seq<char>) -> Option<bool>;

/// What `regex::Regex::new(pattern)` then `find_iter(text).count()` gives:
/// the number of non-overlapping matches, or `None` when the pattern does
/// not compile.
pub uninterp spec fn regex_match_count_result(pattern: Seq<char>, text: Seq<char>) -> Option<
    usize,
>;

/// What `regex::Regex::new(pattern)` then `replace(text, replacement)`
/// gives: `text` with its first match replaced (with `$0`-style group
/// references expanded), or `None` when the pattern does not compile.
pub uninterp spec fn regex_replace_first_result(
    pattern: Seq<char>,
    text: Seq<char>,
    replacement: Seq<char>,
) -> Option<Seq<char>>;

/// The MD5 digest of `data` (`md5::Md5::digest`).
pub uninterp spec fn md5_digest_of(data: Seq<u8>) -> Seq<u8>;

/// Compiles `pattern` with `regex::Regex::new` and runs `Regex::is_match`
/// on `text`. Trusted: the result is `regex_is_match_result` of the two
/// texts (`None` exactly when `Regex::new` returns an error).
#[verifier::external_body]
pub(crate) fn regex_is_match(pattern: &str, text: &str) -> (r: Option<bool>)
    ensures
        r == regex_is_match_result(pattern@, text@),
{
    match regex::Regex::new(pattern) {
        Ok(re) => Some(re.is_match(text)),
        Err(_) => None,
    }
}

/// Compiles `pattern` with `regex::Regex::new` and counts
/// `Regex::find_iter` matches in `text`. Trusted: the result is
/// `regex_match_count_result` of the two texts.
#[verifier::external_body]
fn regex_match_count(pattern: &str, text: &str) -> (r: Option<usize>)
    ensures
        r == regex_match_count_result(pattern@, text@),
{
    match regex::Regex::new(pattern) {
        Ok(re) => Some(re.find_iter(text).count()),
        Err(_) => None,
    }
}

/// Compiles `pattern` with `regex::Regex::new` and applies
/// `Regex::replace` (first match) to `text`. Trusted: the result's text is
/// `regex_replace_first_result` of the three texts.
#[verifier::external_body]
pub(crate) fn regex_replace_first(pattern: &str, text: &str, replacement: &str) -> (r: Option<String>)
    ensures
        match r {
            Some(s) => regex_replace_first_result(pattern@, text@, replacement@) == Some(s@),
            None => regex_replace_first_result(pattern@, text@, replacement@) is None,
        },
{
    match regex::Regex::new(pattern) {
        Ok(re) => Some(re.replace(text, replacement).to_string()),
        Err(_) => None,
    }
}

/// Hashes `data` with `md5::Md5::digest`. Trusted: the result is
/// `md5_digest_of(data)`, and it is 16 bytes long (MD5's output size).
#[verifier::external_body]
fn md5_digest(data: &[u8]) -> (r: Vec<u8>)
    ensures
        r@ == md5_digest_of(data@),
        r@.len() == 16,
{
    md5::Md5::digest(data).to_vec()
}

/// The multi-line form of a pattern: `(?m)` in front, so `^`/`$` match at
/// line boundaries.
pub fn multiline_pattern(pattern: &str) -> (r: String)
    ensures
        r@ == "(?m)"@ + pattern@,
{
    let mut out: Vec<char> = Vec::new();
    extend_str(&mut out, "(?m)");
    extend_str(&mut out, pattern);
    string_of(&out)
}

/// Some file's text matches `pattern` in multi-line mode.
pub open spec fn any_file_matches_spec(pattern: Seq<char>, files: Seq<Seq<char>>) -> Option<bool>
    decreases files.len(),
{
    if files.len() == 0 {
        Some(false)
    } else {
        match any_file_matches_spec(pattern, files.drop_last()) {
            None => None,
            Some(true) => Some(true),
            Some(false) => regex_is_match_result("(?m)"@ + pattern, files.last()),
        }
    }
}

/// The total number of multi-line matches of `pattern` over the files, or
/// `None` when the pattern does not compile or the total overflows.
pub open spec fn total_matches_spec(pattern: Seq<char>, files: Seq<Seq<char>>) -> Option<usize>
    decreases files.len(),
{
    if files.len() == 0 {
        Some(0)
    } else {
        match (
            total_matches_spec(pattern, files.drop_last()),
            regex_match_count_result("(?m)"@ + pattern, files.last()),
        ) {
            (Some(a), Some(b)) => if a + b <= usize::MAX {
                Some((a + b) as usize)
            } else {
                None
            },
            _ => None,
        }
    }
}

/// Whether any of `files` (their texts) matches `pattern` in multi-line
/// mode; `None` when the pattern does not compile.
pub fn any_file_matches(pattern: &str, files: &Vec<String>) -> (r: Option<bool>)
    ensures
        r == any_file_matches_spec(pattern@, files@.map_values(|f: String| f@)),
{
    let ghost views = files@.map_values(|f: String| f@);
    let p = multiline_pattern(pattern);
    let mut i: usize = 0;
    while i < files.len()
        invariant
            i <= files@.len(),
            views == files@.map_values(|f: String| f@),
            p@ == "(?m)"@ + pattern@,
            any_file_matches_spec(pattern@, views.take(i as int)) == Some(false),
        decreases files@.len() - i,
    {
        assert(views.take(i + 1).drop_last() =~= views.take(i as int));
        match regex_is_match(p.as_str(), files[i].as_str()) {
            None => {
                proof {
                    lemma_any_none_sticks(pattern@, views, i as int + 1);
                }
                return None;
            },
            Some(true) => {
                proof {
                    lemma_any_true_sticks(pattern@, views, i as int + 1);
                }
                return Some(true);
            },
            Some(false) => {},
        }
        i = i + 1;
    }
    assert(views.take(files@.len() as int) =~= views);
    Some(false)
}

proof fn lemma_any_true_sticks(pattern: Seq<char>, files: Seq<Seq<char>>, k: int)
    requires
        0 < k <= files.len(),
        any_file_matches_spec(pattern, files.take(k)) == Some(true),
    ensures
        any_file_matches_spec(pattern, files) == Some(true),
    decreases files.len() - k,
{
    if k < files.len() {
        assert(files.take(k + 1).drop_last() =~= files.take(k));
        lemma_any_true_sticks(pattern, files, k + 1);
    } else {
        assert(files.take(k) =~= files);
    }
}

proof fn lemma_any_none_sticks(pattern: Seq<char>, files: Seq<Seq<char>>, k: int)
    requires
        0 < k <= files.len(),
        any_file_matches_spec(pattern, files.take(k)) is None,
    ensures
        any_file_matches_spec(pattern, files) is None,
    decreases files.len() - k,
{
    if k < files.len() {
        assert(files.take(k + 1).drop_last() =~= files.take(k));
        lemma_any_none_sticks(pattern, files, k + 1);
    } else {
        assert(files.take(k) =~= files);
    }
}

proof fn lemma_total_none_sticks(pattern: Seq<char>, files: Seq<Seq<char>>, k: int)
    requires
        0 < k <= files.len(),
        total_matches_spec(pattern, files.take(k)) is None,
    ensures
        total_matches_spec(pattern, files) is None,
    decreases files.len() - k,
{
    if k < files.len() {
        assert(files.take(k + 1).drop_last() =~= files.take(k));
        lemma_total_none_sticks(pattern, files, k + 1);
    } else {
        assert(files.take(k) =~= files);
    }
}

/// The total number of multi-line matches of `pattern` over `files`;
/// `None` when the pattern does not compile or the count overflows.
pub fn total_matches(pattern: &str, files: &Vec<String>) -> (r: Option<usize>)
    ensures
        r == total_matches_spec(pattern@, files@.map_values(|f: String| f@)),
{
    let ghost views = files@.map_values(|f: String| f@);
    let p = multiline_pattern(pattern);
    let mut total: usize = 0;
    let mut i: usize = 0;
    while i < files.len()
        invariant
            i <= files@.len(),
            views == files@.map_values(|f: String| f@),
            p@ == "(?m)"@ + pattern@,
            total_matches_spec(pattern@, views.take(i as int)) == Some(total),
        decreases files@.len() - i,
    {
        assert(views.take(i + 1).drop_last() =~= views.take(i as int));
        match regex_match_count(p.as_str(), files[i].as_str()) {
            None => {
                proof {
                    lemma_total_none_sticks(pattern@, views, i as int + 1);
                }
                return None;
            },
            Some(n) => match total.checked_add(n) {
                Some(t) => {
                    total = t;
                },
                None => {
                    proof {
                        lemma_total_none_sticks(pattern@, views, i as int + 1);
                    }
                    return None;
                },
            },
        }
        i = i + 1;
    }
    assert(views.take(files@.len() as int) =~= views);
    Some(total)
}

/// The lowercase hex MD5 digest of `data`, as `{:02x}` per byte.
pub fn md5_hex(data: &[u8]) -> (r: String)
    ensures
        r@ == hex_lower_spec(md5_digest_of(data@)),
        r@.len() == 32,
{
    let d = md5_digest(data);
    hex_lower(d.as_slice())
}

/// Whether the MD5 digest of `data` is the one written in hex as `hex`.
pub fn md5_hex_equals(data: &[u8], hex: &str) -> (r: bool)
    ensures
        r == (hex_lower_spec(md5_digest_of(data@)) == hex@),
{
    let h = md5_hex(data);
    let hc = chars_of(h.as_str());
    let ec = chars_of(hex);
    crate::text::chars_eq(&hc, &ec)
}

} // verus!
