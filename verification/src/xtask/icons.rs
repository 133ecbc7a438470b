//! Brand-icon checks over a companion app tree: does the app ship a PNG
//! favicon that matches its brand icon, is the legacy red-check SVG gone,
//! and does `frontend/index.html` prefer the PNG? And the fix-ups that
//! bring an app in line.

use vstd::prelude::*;
use super::engine::{
    md5_digest_of, md5_hex_equals, regex_is_match, regex_is_match_result, regex_replace_first,
    regex_replace_first_result,
};
use crate::hex::hex_lower_spec;
use crate::text::{
    ascii_lower, ascii_lower_spec, chars_of, contains_spec, contains_str, join_chars, join_spec,
    replace_all, replace_all_spec, split_chars, split_spec, string_of,
};

verus! {

/// MD5 (hex) of the legacy red-check "todo" favicon that must not ship.
pub const RED_CHECK_MD5: &'static str = "b38828f8820f79d0865ef3d530567fc0";

/// An `index.html` that hints at an SVG favicon somewhere.
pub const SVG_ICON_HINT: &'static str = "type=\"image/svg\\+xml\".*favicon|favicon\\.svg.*rel=\"icon\"|rel=\"icon\".*svg";

/// An `index.html` with an icon link of SVG type.
pub const SVG_ICON_LINK: &'static str = "rel=\"icon\"[^>]*image/svg\\+xml|type=\"image/svg\\+xml\"[^>]*rel=\"icon\"";

/// The attribute that marks an icon link.
pub const REL_ICON: &'static str = "rel=\"icon\"";

/// An `index.html` that mentions an SVG favicon (triggers the cleanup).
pub const SVG_ANY: &'static str = "favicon\\.svg|type=\"image/svg\\+xml\".*icon|rel=\"icon\"[^>]*svg";

/// Lines of `index.html` that link an SVG or alternate icon (dropped).
pub const SVG_LINE: &'static str = "favicon\\.svg|type=\"image/svg\\+xml\"[^>]*rel=\"icon\"|rel=\"icon\"[^>]*type=\"image/svg\\+xml\"|rel=\"alternate icon\"";

/// A Trunk directive that copies `favicon.png` into the build.
pub const TRUNK_COPY: &'static str = "data-trunk rel=\"copy-file\"[^>]*favicon\\.png|copy-file\" href=\"\\.\\./assets/favicon\\.png\"";

/// The Trunk copy directive inserted before the first icon link.
pub const TRUNK_COPY_LINE: &'static str = "    <link data-trunk rel=\"copy-file\" href=\"../assets/favicon.png\" />";

/// An icon link to `favicon.png` (either attribute order).
pub const PNG_ICON_LINK: &'static str = "rel=\"icon\"[^>]*favicon\\.png|href=\"favicon\\.png\"[^>]*rel=\"icon\"";

/// A PNG-typed link to `favicon.png`.
pub const PNG_TYPED_LINK: &'static str = "type=\"image/png\"[^>]*href=\"favicon\\.png\"";

/// The PNG icon link written by the fix-up.
pub const PNG_ICON_TAG: &'static str = "rel=\"icon\" type=\"image/png\" href=\"favicon\\.png\" */>";

/// Inserted after `</title>` when no PNG icon link exists.
pub const AFTER_TITLE: &'static str = "</title>\n    <link rel=\"icon\" type=\"image/png\" href=\"favicon.png\" />\n    <link rel=\"apple-touch-icon\" href=\"favicon.png\" />";

/// Inserted before `</head>` when no PNG icon link exists and there is no
/// `</title>`.
pub const BEFORE_HEAD_END: &'static str = "    <link rel=\"icon\" type=\"image/png\" href=\"favicon.png\" />\n    <link rel=\"apple-touch-icon\" href=\"favicon.png\" />\n</head>";

/// Replacement that appends an apple-touch-icon link after the PNG icon
/// link (`$0` is the matched link).
pub const APPLE_AFTER_ICON: &'static str = "$0\n    <link rel=\"apple-touch-icon\" href=\"favicon.png\" />";

/// What was found at one path of the app tree.
pub enum FileState {
    /// No file there.
    Missing,
    /// A file that could not be read.
    Unreadable,
    /// A file with these bytes.
    Bytes(Vec<u8>),
}

/// What was found at the path of a text file.
pub enum TextFile {
    Missing,
    Unreadable,
    Text(String),
}

/// What the icon check needs to know about one app.
pub struct IconCheckInput {
    /// `frontend/` exists.
    pub has_frontend: bool,
    /// `src/dashboard/` exists.
    pub has_dashboard: bool,
    pub favicon_png: FileState,
    pub favicon_jpg: FileState,
    pub icon_png: FileState,
    pub favicon_svg: FileState,
    pub index_html: TextFile,
}

/// One line of the icon check's report for an app.
#[derive(Clone, Copy, Debug, PartialEq, Eq, Structural)]
pub enum IconFinding {
    /// `skip`: no web UI.
    SkippedNoWebUi,
    /// `FAIL`: no `assets/favicon.png` (or `.jpg`, or `icon.png`).
    MissingFavicon,
    /// `WARN`: the PNG favicon differs from `icon.png`.
    FaviconDiffersFromIcon,
    /// `FAIL`: `favicon.svg` is the legacy red-check icon.
    LegacySvgFavicon,
    /// `FAIL`: `index.html` prefers an SVG favicon.
    IndexPrefersSvg,
    /// `FAIL`: `index.html` does not reference `favicon.png`.
    IndexMissingPngReference,
    /// `ok`: nothing has failed so far.
    Passed,
    /// One of the built-in patterns did not compile.
    PatternError,
}

/// The report for one app and whether the run has failed so far.
pub struct IconCheck {
    pub findings: Vec<IconFinding>,
    pub failed: bool,
}

/// A file is there (readable or not).
pub open spec fn file_exists(f: FileState) -> bool {
    !(f is Missing)
}

/// The hex MD5 of a readable file.
pub open spec fn file_md5(f: FileState) -> Option<Seq<char>> {
    match f {
        FileState::Bytes(b) => Some(hex_lower_spec(md5_digest_of(b@))),
        _ => None,
    }
}

/// The file is the legacy red-check SVG.
pub open spec fn is_legacy_svg(f: FileState) -> bool {
    file_md5(f) == Some(RED_CHECK_MD5@)
}

/// The first line that marks an icon link is about an SVG (its ASCII
/// lower-case form contains `svg`).
pub open spec fn first_icon_line_is_svg(lines: Seq<Seq<char>>) -> bool
    decreases lines.len(),
{
    if lines.len() == 0 {
        false
    } else if contains_spec(lines[0], REL_ICON@) {
        contains_spec(lines[0].map_values(|c: char| ascii_lower_spec(c)), "svg"@)
    } else {
        first_icon_line_is_svg(lines.drop_first())
    }
}

/// What `index.html` (text `c`) reports: prefers-SVG, missing PNG
/// reference; `None` when a pattern does not compile.
pub open spec fn index_findings_spec(c: Seq<char>) -> Option<Seq<IconFinding>> {
    let prefers: Option<bool> = match regex_is_match_result(SVG_ICON_HINT@, c) {
        None => None,
        Some(false) => Some(false),
        Some(true) => match regex_is_match_result(SVG_ICON_LINK@, c) {
            None => None,
            Some(l) => Some(l && first_icon_line_is_svg(split_spec(c, '\n'))),
        },
    };
    match prefers {
        None => None,
        Some(p) => Some(
            (if p {
                seq![IconFinding::IndexPrefersSvg]
            } else {
                Seq::empty()
            }) + (if !contains_spec(c, "favicon.png"@) {
                seq![IconFinding::IndexMissingPngReference]
            } else {
                Seq::empty()
            }),
        ),
    }
}

/// The icon check's report for one app and whether the run has failed,
/// given whether it had failed before this app.
pub open spec fn icon_check_spec(inp: IconCheckInput, fail_before: bool) -> (
    Seq<IconFinding>,
    bool,
) {
    if !inp.has_frontend && !inp.has_dashboard {
        (seq![IconFinding::SkippedNoWebUi], fail_before)
    } else if !file_exists(inp.favicon_png) && !file_exists(inp.favicon_jpg) && !file_exists(
        inp.icon_png,
    ) {
        (seq![IconFinding::MissingFavicon], true)
    } else {
        let fav = if file_exists(inp.favicon_png) {
            inp.favicon_png
        } else if file_exists(inp.favicon_jpg) {
            inp.favicon_jpg
        } else {
            inp.icon_png
        };
        let fav_is_png = file_exists(inp.favicon_png) || !file_exists(inp.favicon_jpg);
        let s1: Seq<IconFinding> = if file_exists(inp.icon_png) && fav_is_png && file_md5(fav) is Some
            && file_md5(inp.icon_png) is Some && file_md5(fav) != file_md5(inp.icon_png) {
            seq![IconFinding::FaviconDiffersFromIcon]
        } else {
            Seq::empty()
        };
        let legacy = is_legacy_svg(inp.favicon_svg);
        let s2 = s1 + if legacy {
            seq![IconFinding::LegacySvgFavicon]
        } else {
            Seq::empty()
        };
        let f2 = fail_before || legacy;
        match inp.index_html {
            TextFile::Text(c) => match index_findings_spec(c@) {
                None => (s2.push(IconFinding::PatternError), true),
                Some(fs) => {
                    let f3 = f2 || fs.len() > 0;
                    (
                        s2 + fs + if !f3 {
                            seq![IconFinding::Passed]
                        } else {
                            Seq::empty()
                        },
                        f3,
                    )
                },
            },
            _ => (
                s2 + if !f2 {
                    seq![IconFinding::Passed]
                } else {
                    Seq::empty()
                },
                f2,
            ),
        }
    }
}

fn file_md5_differs(a: &FileState, b: &FileState) -> (r: bool)
    ensures
        r == (file_md5(*a) is Some && file_md5(*b) is Some && file_md5(*a) != file_md5(*b)),
{
    match (a, b) {
        (FileState::Bytes(x), FileState::Bytes(y)) => {
            let hx = super::engine::md5_hex(x.as_slice());
            let hy = super::engine::md5_hex(y.as_slice());
            let cx = chars_of(hx.as_str());
            let cy = chars_of(hy.as_str());
            !crate::text::chars_eq(&cx, &cy)
        },
        _ => false,
    }
}

fn legacy_svg(f: &FileState) -> (r: bool)
    ensures
        r == is_legacy_svg(*f),
{
    match f {
        FileState::Bytes(b) => md5_hex_equals(b.as_slice(), RED_CHECK_MD5),
        _ => false,
    }
}

fn lower_chars(s: &[char]) -> (r: Vec<char>)
    ensures
        r@ == s@.map_values(|c: char| ascii_lower_spec(c)),
{
    let mut out: Vec<char> = Vec::new();
    let mut i: usize = 0;
    while i < s.len()
        invariant
            i <= s@.len(),
            out@ == s@.take(i as int).map_values(|c: char| ascii_lower_spec(c)),
        decreases s@.len() - i,
    {
        out.push(ascii_lower(s[i]));
        assert(s@.take(i + 1).map_values(|c: char| ascii_lower_spec(c)) =~= s@.take(
            i as int,
        ).map_values(|c: char| ascii_lower_spec(c)).push(ascii_lower_spec(s@[i as int])));
        i = i + 1;
    }
    assert(s@.take(s@.len() as int) =~= s@);
    out
}

fn first_icon_line_svg(lines: &Vec<Vec<char>>) -> (r: bool)
    ensures
        r == first_icon_line_is_svg(lines@.map_values(|l: Vec<char>| l@)),
{
    let ghost views = lines@.map_values(|l: Vec<char>| l@);
    let mut i: usize = 0;
    assert(views.skip(0) =~= views);
    while i < lines.len()
        invariant
            i <= lines@.len(),
            views == lines@.map_values(|l: Vec<char>| l@),
            first_icon_line_is_svg(views) == first_icon_line_is_svg(views.skip(i as int)),
        decreases lines@.len() - i,
    {
        assert(views.skip(i as int)[0] == lines@[i as int]@);
        if contains_str(&lines[i], REL_ICON) {
            let low = lower_chars(&lines[i]);
            return contains_str(&low, "svg");
        }
        assert(views.skip(i as int).drop_first() =~= views.skip(i + 1));
        i = i + 1;
    }
    false
}

/// What `index.html` reports (prefers-SVG, missing PNG reference), or
/// `None` when a pattern does not compile.
pub fn index_findings(content: &str) -> (r: Option<Vec<IconFinding>>)
    ensures
        match r {
            Some(v) => index_findings_spec(content@) == Some(v@),
            None => index_findings_spec(content@) is None,
        },
{
    let prefers = match regex_is_match(SVG_ICON_HINT, content) {
        None => return None,
        Some(false) => false,
        Some(true) => match regex_is_match(SVG_ICON_LINK, content) {
            None => return None,
            Some(l) => {
                if l {
                    let c = chars_of(content);
                    let lines = split_chars(&c, '\n');
                    proof {
                        assert(lines@.map_values(|l: Vec<char>| l@) =~= split_spec(content@, '\n'));
                    }
                    first_icon_line_svg(&lines)
                } else {
                    false
                }
            },
        },
    };
    let mut out: Vec<IconFinding> = Vec::new();
    if prefers {
        out.push(IconFinding::IndexPrefersSvg);
    }
    let c = chars_of(content);
    if !contains_str(&c, "favicon.png") {
        out.push(IconFinding::IndexMissingPngReference);
    }
    proof {
        let s1: Seq<IconFinding> = if prefers {
            seq![IconFinding::IndexPrefersSvg]
        } else {
            Seq::empty()
        };
        let s2: Seq<IconFinding> = if !contains_spec(content@, "favicon.png"@) {
            seq![IconFinding::IndexMissingPngReference]
        } else {
            Seq::empty()
        };
        assert(out@ =~= s1 + s2);
    }
    Some(out)
}

/// Check one app's brand icons: report what is wrong, in order, and
/// whether the run has failed (the `ok` line appears only while nothing
/// has failed in the run, this app or an earlier one).
pub fn check_app_icons(inp: &IconCheckInput, fail_before: bool) -> (r: IconCheck)
    ensures
        (r.findings@, r.failed) == icon_check_spec(*inp, fail_before),
{
    let mut findings: Vec<IconFinding> = Vec::new();
    if !inp.has_frontend && !inp.has_dashboard {
        findings.push(IconFinding::SkippedNoWebUi);
        assert(findings@ =~= seq![IconFinding::SkippedNoWebUi]);
        return IconCheck { findings, failed: fail_before };
    }
    let png = !matches!(inp.favicon_png, FileState::Missing);
    let jpg = !matches!(inp.favicon_jpg, FileState::Missing);
    let icon = !matches!(inp.icon_png, FileState::Missing);
    if !png && !jpg && !icon {
        findings.push(IconFinding::MissingFavicon);
        assert(findings@ =~= seq![IconFinding::MissingFavicon]);
        return IconCheck { findings, failed: true };
    }
    let fav = if png {
        &inp.favicon_png
    } else if jpg {
        &inp.favicon_jpg
    } else {
        &inp.icon_png
    };
    let fav_is_png = png || !jpg;
    if icon && fav_is_png && file_md5_differs(fav, &inp.icon_png) {
        findings.push(IconFinding::FaviconDiffersFromIcon);
    }
    let ghost s1 = findings@;
    let legacy = legacy_svg(&inp.favicon_svg);
    if legacy {
        findings.push(IconFinding::LegacySvgFavicon);
    }
    let ghost s2 = findings@;
    let f2 = fail_before || legacy;
    match &inp.index_html {
        TextFile::Text(c) => match index_findings(c.as_str()) {
            None => {
                findings.push(IconFinding::PatternError);
                IconCheck { findings, failed: true }
            },
            Some(fs) => {
                let f3 = f2 || fs.len() > 0;
                let mut i: usize = 0;
                while i < fs.len()
                    invariant
                        i <= fs@.len(),
                        findings@ == s2 + fs@.take(i as int),
                    decreases fs@.len() - i,
                {
                    findings.push(fs[i]);
                    assert(fs@.take(i + 1) =~= fs@.take(i as int).push(fs@[i as int]));
                    i = i + 1;
                }
                assert(fs@.take(fs@.len() as int) =~= fs@);
                let ghost s3 = findings@;
                if !f3 {
                    findings.push(IconFinding::Passed);
                    assert(findings@ =~= s3 + seq![IconFinding::Passed]);
                } else {
                    assert(findings@ =~= s3 + Seq::<IconFinding>::empty());
                }
                IconCheck { findings, failed: f3 }
            },
        },
        _ => {
            let ghost s3 = findings@;
            if !f2 {
                findings.push(IconFinding::Passed);
                assert(findings@ =~= s3 + seq![IconFinding::Passed]);
            } else {
                assert(findings@ =~= s3 + Seq::<IconFinding>::empty());
            }
            IconCheck { findings, failed: f2 }
        },
    }
}

/// How the fix-up treats `index.html`.
pub enum IndexFix {
    /// Already compliant: leave the file alone.
    Unchanged,
    /// Write this text back.
    Rewrite(String),
    /// Dropping the SVG icon lines would empty the file: refuse (a failure).
    RefusedEmpty,
    /// One of the built-in patterns did not compile.
    PatternError,
}

/// Why an app is skipped by the fix-up.
#[derive(Clone, Copy, Debug, PartialEq, Eq, Structural)]
pub enum SkipReason {
    /// Neither `frontend/` nor `src/dashboard/` exists.
    NoWebUi,
    /// There is no `assets/` directory.
    NoAssets,
}

/// What the fix-up needs to know about one app.
pub struct IconSyncInput {
    pub has_frontend: bool,
    pub has_dashboard: bool,
    pub has_assets: bool,
    /// `assets/icon.png`, when present (its bytes; empty when unreadable).
    pub icon_png: Option<Vec<u8>>,
    /// `assets/favicon.png`, when present (its bytes; empty when unreadable).
    pub favicon_png: Option<Vec<u8>>,
    /// `assets/favicon.jpg` exists.
    pub has_favicon_jpg: bool,
    pub favicon_svg: FileState,
    /// `frontend/index.html`, when present (its text; empty when unreadable).
    pub index_html: Option<String>,
}

/// What the fix-up does to one app.
pub struct IconSyncPlan {
    /// Skip the app entirely.
    pub skip: Option<SkipReason>,
    /// Copy `icon.png` over `favicon.png`.
    pub copy_icon_to_favicon: bool,
    /// Warn that neither `icon.png` nor a favicon exists.
    pub warn_missing_icons: bool,
    /// Delete the legacy red-check `favicon.svg`.
    pub remove_legacy_svg: bool,
    /// What to do with `index.html`, when it exists.
    pub index: Option<IndexFix>,
}

/// The lines of `lines` that no SVG-icon pattern matches, or `None` when
/// the pattern does not compile.
pub open spec fn kept_lines_spec(lines: Seq<Seq<char>>) -> Option<Seq<Seq<char>>>
    decreases lines.len(),
{
    if lines.len() == 0 {
        Some(Seq::empty())
    } else {
        match (kept_lines_spec(lines.drop_last()), regex_is_match_result(SVG_LINE@, lines.last())) {
            (Some(k), Some(false)) => Some(k.push(lines.last())),
            (Some(k), Some(true)) => Some(k),
            _ => None,
        }
    }
}

/// The lines with the Trunk copy directive inserted before the first icon
/// link.
pub open spec fn insert_copy_line_spec(lines: Seq<Seq<char>>) -> Seq<Seq<char>>
    decreases lines.len(),
{
    if lines.len() == 0 {
        lines
    } else if contains_spec(lines[0], REL_ICON@) {
        seq![TRUNK_COPY_LINE@] + lines
    } else {
        seq![lines[0]] + insert_copy_line_spec(lines.drop_first())
    }
}

/// Step 1: drop the SVG icon lines when the file mentions an SVG icon.
/// `Err(true)`: refused (would empty the file); `Err(false)`: a pattern
/// error.
pub open spec fn drop_svg_step(c: Seq<char>) -> Result<Seq<char>, bool> {
    match regex_is_match_result(SVG_ANY@, c) {
        None => Err(false),
        Some(false) => Ok(c),
        Some(true) => match kept_lines_spec(split_spec(c, '\n')) {
            None => Err(false),
            Some(k) => if k.len() == 0 && c.len() > 0 {
                Err(true)
            } else {
                Ok(join_spec(k, "\n"@))
            },
        },
    }
}

/// Step 2: add the Trunk copy directive for `favicon.png` when a Trunk
/// page with an icon link lacks one.
pub open spec fn trunk_copy_step(c: Seq<char>) -> Option<Seq<char>> {
    match regex_is_match_result(TRUNK_COPY@, c) {
        None => None,
        Some(true) => Some(c),
        Some(false) => if contains_spec(c, "data-trunk"@) && contains_spec(c, REL_ICON@) {
            Some(join_spec(insert_copy_line_spec(split_spec(c, '\n')), "\n"@))
        } else {
            Some(c)
        },
    }
}

/// Step 3: add the PNG icon and apple-touch-icon links after `</title>`
/// (or before `</head>`) when no PNG icon link exists.
pub open spec fn png_link_step(c: Seq<char>) -> Option<Seq<char>> {
    match (regex_is_match_result(PNG_ICON_LINK@, c), regex_is_match_result(PNG_TYPED_LINK@, c)) {
        (Some(a), Some(b)) => if !a && !b {
            if contains_spec(c, "</title>"@) {
                Some(replace_all_spec(c, "</title>"@, AFTER_TITLE@))
            } else if contains_spec(c, "</head>"@) {
                Some(replace_all_spec(c, "</head>"@, BEFORE_HEAD_END@))
            } else {
                Some(c)
            }
        } else {
            Some(c)
        },
        _ => None,
    }
}

/// Step 4: add an apple-touch-icon link after the PNG icon link when the
/// page has none.
pub open spec fn apple_icon_step(c: Seq<char>) -> Option<Seq<char>> {
    if !contains_spec(c, "apple-touch-icon"@) {
        regex_replace_first_result(PNG_ICON_TAG@, c, APPLE_AFTER_ICON@)
    } else {
        Some(c)
    }
}

/// The text `index.html` should have: the four steps in order.
/// `Err(true)`: refused; `Err(false)`: a pattern error.
pub open spec fn fixed_index_spec(c: Seq<char>) -> Result<Seq<char>, bool> {
    match drop_svg_step(c) {
        Err(e) => Err(e),
        Ok(c1) => match trunk_copy_step(c1) {
            None => Err(false),
            Some(c2) => match png_link_step(c2) {
                None => Err(false),
                Some(c3) => match apple_icon_step(c3) {
                    None => Err(false),
                    Some(c4) => Ok(c4),
                },
            },
        },
    }
}

/// The fix for `index.html` with text `c`.
pub open spec fn index_fix_matches(fix: IndexFix, c: Seq<char>) -> bool {
    match fix {
        IndexFix::Unchanged => fixed_index_spec(c) == Ok::<Seq<char>, bool>(c),
        IndexFix::Rewrite(s) => fixed_index_spec(c) == Ok::<Seq<char>, bool>(s@) && s@ != c,
        IndexFix::RefusedEmpty => fixed_index_spec(c) == Err::<Seq<char>, bool>(true),
        IndexFix::PatternError => fixed_index_spec(c) == Err::<Seq<char>, bool>(false),
    }
}

/// The plan that skips an app and does nothing else.
pub open spec fn skip_plan(reason: SkipReason) -> IconSyncPlan {
    IconSyncPlan {
        skip: Some(reason),
        copy_icon_to_favicon: false,
        warn_missing_icons: false,
        remove_legacy_svg: false,
        index: None,
    }
}

/// The fix-up of the app `inp` fails: it has a web UI and an `assets/`
/// directory, and dropping the SVG icon lines would empty its non-empty
/// `index.html`.
pub open spec fn sync_refuses(inp: IconSyncInput) -> bool {
    &&& (inp.has_frontend || inp.has_dashboard)
    &&& inp.has_assets
    &&& inp.index_html matches Some(c) && fixed_index_spec(c@) == Err::<Seq<char>, bool>(true)
}

/// The fix-up plan of one app.
pub open spec fn sync_plan_matches(p: IconSyncPlan, inp: IconSyncInput) -> bool {
    if !inp.has_frontend && !inp.has_dashboard {
        p == skip_plan(SkipReason::NoWebUi)
    } else if !inp.has_assets {
        p == skip_plan(SkipReason::NoAssets)
    } else {
        &&& p.skip is None
        &&& p.copy_icon_to_favicon == match (inp.icon_png, inp.favicon_png) {
            (Some(i), Some(f)) => i@ != f@,
            (Some(_), None) => true,
            _ => false,
        }
        &&& p.warn_missing_icons == (inp.icon_png is None && inp.favicon_png is None
            && !inp.has_favicon_jpg)
        &&& p.remove_legacy_svg == is_legacy_svg(inp.favicon_svg)
        &&& match inp.index_html {
            None => p.index is None,
            Some(c) => p.index matches Some(fix) && index_fix_matches(fix, c@),
        }
    }
}

fn kept_lines(lines: &Vec<Vec<char>>) -> (r: Option<Vec<Vec<char>>>)
    ensures
        match r {
            Some(k) => kept_lines_spec(lines@.map_values(|l: Vec<char>| l@)) == Some(
                k@.map_values(|l: Vec<char>| l@),
            ),
            None => kept_lines_spec(lines@.map_values(|l: Vec<char>| l@)) is None,
        },
{
    let ghost views = lines@.map_values(|l: Vec<char>| l@);
    let mut kept: Vec<Vec<char>> = Vec::new();
    let mut i: usize = 0;
    assert(views.take(0) =~= Seq::<Seq<char>>::empty());
    assert(kept@.map_values(|l: Vec<char>| l@) =~= Seq::<Seq<char>>::empty());
    while i < lines.len()
        invariant
            i <= lines@.len(),
            views == lines@.map_values(|l: Vec<char>| l@),
            kept_lines_spec(views.take(i as int)) == Some(kept@.map_values(|l: Vec<char>| l@)),
        decreases lines@.len() - i,
    {
        assert(views.take(i + 1).drop_last() =~= views.take(i as int));
        assert(views.take(i + 1).last() == lines@[i as int]@);
        let line = string_of(&lines[i]);
        match regex_is_match(SVG_LINE, line.as_str()) {
            None => {
                proof {
                    lemma_kept_none_sticks(views, i as int + 1);
                }
                return None;
            },
            Some(true) => {},
            Some(false) => {
                let ghost before = kept@.map_values(|l: Vec<char>| l@);
                kept.push(lines[i].clone());
                assert(kept@.map_values(|l: Vec<char>| l@) =~= before.push(lines@[i as int]@));
            },
        }
        i = i + 1;
    }
    assert(views.take(lines@.len() as int) =~= views);
    Some(kept)
}

proof fn lemma_kept_none_sticks(lines: Seq<Seq<char>>, k: int)
    requires
        0 < k <= lines.len(),
        kept_lines_spec(lines.take(k)) is None,
    ensures
        kept_lines_spec(lines) is None,
    decreases lines.len() - k,
{
    if k < lines.len() {
        assert(lines.take(k + 1).drop_last() =~= lines.take(k));
        lemma_kept_none_sticks(lines, k + 1);
    } else {
        assert(lines.take(k) =~= lines);
    }
}

fn insert_copy_line(lines: &Vec<Vec<char>>) -> (r: Vec<Vec<char>>)
    ensures
        r@.map_values(|l: Vec<char>| l@) == insert_copy_line_spec(
            lines@.map_values(|l: Vec<char>| l@),
        ),
{
    let ghost views = lines@.map_values(|l: Vec<char>| l@);
    let mut out: Vec<Vec<char>> = Vec::new();
    let mut done = false;
    let mut i: usize = 0;
    assert(views.skip(0) =~= views);
    while i < lines.len()
        invariant
            i <= lines@.len(),
            views == lines@.map_values(|l: Vec<char>| l@),
            !done ==> out@.map_values(|l: Vec<char>| l@) + insert_copy_line_spec(views.skip(i as int))
                == insert_copy_line_spec(views),
            done ==> out@.map_values(|l: Vec<char>| l@) + views.skip(i as int)
                == insert_copy_line_spec(views),
        decreases lines@.len() - i,
    {
        let ghost before = out@.map_values(|l: Vec<char>| l@);
        assert(views.skip(i as int)[0] == lines@[i as int]@);
        assert(views.skip(i as int).drop_first() =~= views.skip(i + 1));
        if !done && contains_str(&lines[i], REL_ICON) {
            let copy = chars_of(TRUNK_COPY_LINE);
            out.push(copy);
            done = true;
            proof {
                assert(out@.map_values(|l: Vec<char>| l@) =~= before.push(TRUNK_COPY_LINE@));
            }
        }
        let ghost mid = out@.map_values(|l: Vec<char>| l@);
        out.push(lines[i].clone());
        proof {
            assert(out@.map_values(|l: Vec<char>| l@) =~= mid.push(lines@[i as int]@));
            assert(seq![views.skip(i as int)[0]] + views.skip(i + 1) =~= views.skip(i as int));
            assert(mid.push(lines@[i as int]@) + views.skip(i + 1) =~= mid + views.skip(i as int));
        }
        i = i + 1;
    }
    assert(views.skip(lines@.len() as int) =~= Seq::<Seq<char>>::empty());
    proof {
        let o = out@.map_values(|l: Vec<char>| l@);
        assert(o + Seq::<Seq<char>>::empty() =~= o);
    }
    out
}

/// The text `index.html` should have: drop SVG icon lines, add the Trunk
/// copy directive, add the PNG icon links, add the apple-touch-icon link.
pub fn fix_index_html(content: &str) -> (r: IndexFix)
    ensures
        index_fix_matches(r, content@),
{
    let before = chars_of(content);
    let c1: Vec<char> = match regex_is_match(SVG_ANY, content) {
        None => return IndexFix::PatternError,
        Some(false) => before.clone(),
        Some(true) => {
            let lines = split_chars(&before, '\n');
            proof {
                assert(lines@.map_values(|l: Vec<char>| l@) =~= split_spec(content@, '\n'));
            }
            match kept_lines(&lines) {
                None => return IndexFix::PatternError,
                Some(k) => {
                    if k.len() == 0 && before.len() > 0 {
                        return IndexFix::RefusedEmpty;
                    }
                    join_chars(&k, "\n")
                },
            }
        },
    };
    assert(drop_svg_step(content@) == Ok::<Seq<char>, bool>(c1@));
    let s1 = string_of(&c1);
    let c2: Vec<char> = match regex_is_match(TRUNK_COPY, s1.as_str()) {
        None => return IndexFix::PatternError,
        Some(true) => c1,
        Some(false) => {
            if contains_str(&c1, "data-trunk") && contains_str(&c1, REL_ICON) {
                let lines = split_chars(&c1, '\n');
                proof {
                    assert(lines@.map_values(|l: Vec<char>| l@) =~= split_spec(c1@, '\n'));
                }
                let with_copy = insert_copy_line(&lines);
                join_chars(&with_copy, "\n")
            } else {
                c1
            }
        },
    };
    assert(trunk_copy_step(s1@) == Some(c2@));
    let s2 = string_of(&c2);
    let icon_link = regex_is_match(PNG_ICON_LINK, s2.as_str());
    let typed_link = regex_is_match(PNG_TYPED_LINK, s2.as_str());
    let c3: Vec<char> = match (icon_link, typed_link) {
        (Some(a), Some(b)) => {
            if !a && !b {
                if contains_str(&c2, "</title>") {
                    let from = chars_of("</title>");
                    let to = chars_of(AFTER_TITLE);
                    proof {
                        reveal_strlit("</title>");
                    }
                    replace_all(&c2, &from, &to)
                } else if contains_str(&c2, "</head>") {
                    let from = chars_of("</head>");
                    let to = chars_of(BEFORE_HEAD_END);
                    proof {
                        reveal_strlit("</head>");
                    }
                    replace_all(&c2, &from, &to)
                } else {
                    c2
                }
            } else {
                c2
            }
        },
        _ => return IndexFix::PatternError,
    };
    assert(png_link_step(s2@) == Some(c3@));
    let s3 = string_of(&c3);
    let s4: String = if !contains_str(&c3, "apple-touch-icon") {
        match regex_replace_first(PNG_ICON_TAG, s3.as_str(), APPLE_AFTER_ICON) {
            None => return IndexFix::PatternError,
            Some(s) => s,
        }
    } else {
        s3
    };
    assert(apple_icon_step(c3@) == Some(s4@));
    let c4 = chars_of(s4.as_str());
    if crate::text::chars_eq(&c4, &before) {
        IndexFix::Unchanged
    } else {
        IndexFix::Rewrite(s4)
    }
}

/// Decide the fix-up of one app: skip it, or which files to copy, warn
/// about, remove and rewrite.
pub fn plan_icon_sync(inp: &IconSyncInput) -> (p: IconSyncPlan)
    ensures
        sync_plan_matches(p, *inp),
{
    if !inp.has_frontend && !inp.has_dashboard {
        return IconSyncPlan {
            skip: Some(SkipReason::NoWebUi),
            copy_icon_to_favicon: false,
            warn_missing_icons: false,
            remove_legacy_svg: false,
            index: None,
        };
    }
    if !inp.has_assets {
        return IconSyncPlan {
            skip: Some(SkipReason::NoAssets),
            copy_icon_to_favicon: false,
            warn_missing_icons: false,
            remove_legacy_svg: false,
            index: None,
        };
    }
    let copy = match (&inp.icon_png, &inp.favicon_png) {
        (Some(i), Some(f)) => !bytes_eq(i, f),
        (Some(_), None) => true,
        _ => false,
    };
    let warn = inp.icon_png.is_none() && inp.favicon_png.is_none() && !inp.has_favicon_jpg;
    let remove = legacy_svg(&inp.favicon_svg);
    let index = match &inp.index_html {
        None => None,
        Some(c) => Some(fix_index_html(c.as_str())),
    };
    IconSyncPlan {
        skip: None,
        copy_icon_to_favicon: copy,
        warn_missing_icons: warn,
        remove_legacy_svg: remove,
        index,
    }
}

fn bytes_eq(a: &Vec<u8>, b: &Vec<u8>) -> (r: bool)
    ensures
        r == (a@ == b@),
{
    if a.len() != b.len() {
        return false;
    }
    let mut i: usize = 0;
    while i < a.len()
        invariant
            a@.len() == b@.len(),
            i <= a@.len(),
            forall|j: int| 0 <= j < i ==> a@[j] == b@[j],
        decreases a@.len() - i,
    {
        if a[i] != b[i] {
            return false;
        }
        i = i + 1;
    }
    assert(a@ =~= b@);
    true
}

/// The fix-up plans of a run over the apps `inputs`, in order, and whether
/// the run fails: some app's fix-up refuses to empty its `index.html`.
pub fn plan_icon_syncs(inputs: &Vec<IconSyncInput>) -> (r: (Vec<IconSyncPlan>, bool))
    ensures
        r.0@.len() == inputs@.len(),
        forall|i: int| 0 <= i < inputs@.len() ==> sync_plan_matches(#[trigger] r.0@[i], inputs@[i]),
        r.1 == exists|i: int| 0 <= i < inputs@.len() && sync_refuses(#[trigger] inputs@[i]),
{
    let mut plans: Vec<IconSyncPlan> = Vec::new();
    let mut failed = false;
    let mut i: usize = 0;
    while i < inputs.len()
        invariant
            i <= inputs@.len(),
            plans@.len() == i,
            forall|k: int| 0 <= k < i ==> sync_plan_matches(#[trigger] plans@[k], inputs@[k]),
            failed == exists|k: int| 0 <= k < i && sync_refuses(#[trigger] inputs@[k]),
        decreases inputs@.len() - i,
    {
        let p = plan_icon_sync(&inputs[i]);
        let refused = match &p.index {
            Some(IndexFix::RefusedEmpty) => true,
            _ => false,
        };
        assert(refused == sync_refuses(inputs@[i as int]));
        failed = failed || refused;
        plans.push(p);
        i = i + 1;
    }
    (plans, failed)
}

/// The legacy red-check SVG always fails the check: for an app with a web
/// UI and some favicon, a `favicon.svg` whose MD5 is `RED_CHECK_MD5` is
/// reported, the run is marked failed, and no `ok` line is given.
pub proof fn law_legacy_svg_fails(inp: IconCheckInput, fail_before: bool, svg: Vec<u8>)
    requires
        inp.has_frontend || inp.has_dashboard,
        !(inp.favicon_png is Missing) || !(inp.favicon_jpg is Missing) || !(inp.icon_png is Missing),
        inp.favicon_svg == FileState::Bytes(svg),
        hex_lower_spec(md5_digest_of(svg@)) == RED_CHECK_MD5@,
    ensures
        icon_check_spec(inp, fail_before).0.contains(IconFinding::LegacySvgFavicon),
        icon_check_spec(inp, fail_before).1,
        !icon_check_spec(inp, fail_before).0.contains(IconFinding::Passed),
{
    let r = icon_check_spec(inp, fail_before);
    let fav = if file_exists(inp.favicon_png) {
        inp.favicon_png
    } else if file_exists(inp.favicon_jpg) {
        inp.favicon_jpg
    } else {
        inp.icon_png
    };
    let fav_is_png = file_exists(inp.favicon_png) || !file_exists(inp.favicon_jpg);
    let s1: Seq<IconFinding> = if file_exists(inp.icon_png) && fav_is_png && file_md5(fav) is Some
        && file_md5(inp.icon_png) is Some && file_md5(fav) != file_md5(inp.icon_png) {
        seq![IconFinding::FaviconDiffersFromIcon]
    } else {
        Seq::empty()
    };
    let s2 = s1 + seq![IconFinding::LegacySvgFavicon];
    assert(s2[s1.len() as int] == IconFinding::LegacySvgFavicon);
    assert forall|i: int| 0 <= i < s2.len() implies s2[i] != IconFinding::Passed by {
        if i < s1.len() {
        }
    }
    match inp.index_html {
        TextFile::Text(c) => match index_findings_spec(c@) {
            None => {
                assert(r.0 == s2.push(IconFinding::PatternError));
                assert(r.0[s1.len() as int] == IconFinding::LegacySvgFavicon);
                assert forall|i: int| 0 <= i < r.0.len() implies r.0[i] != IconFinding::Passed by {
                    if i < s2.len() {
                        assert(r.0[i] == s2[i]);
                    }
                }
            },
            Some(fs) => {
                assert(r.0 == s2 + fs);
                assert(r.0[s1.len() as int] == IconFinding::LegacySvgFavicon);
                assert forall|i: int| 0 <= i < r.0.len() implies r.0[i] != IconFinding::Passed by {
                    if i < s2.len() {
                        assert(r.0[i] == s2[i]);
                    } else {
                        let j = i - s2.len();
                        assert(r.0[i] == fs[j]);
                        assert(fs[j] == IconFinding::IndexPrefersSvg || fs[j]
                            == IconFinding::IndexMissingPngReference);
                    }
                }
            },
        },
        _ => {
            assert(r.0 =~= s2);
        },
    }
}

/// The fix-up always brings the brand icon across: for an app with a web
/// UI and `assets/`, when `icon.png` exists and `favicon.png` is missing
/// or holds other bytes, the plan copies `icon.png` over `favicon.png`; when
/// they already match, or there is no `icon.png`, it copies nothing.
pub proof fn law_icon_copied_to_favicon(p: IconSyncPlan, inp: IconSyncInput)
    requires
        sync_plan_matches(p, inp),
        inp.has_frontend || inp.has_dashboard,
        inp.has_assets,
    ensures
        inp.icon_png matches Some(i) && (inp.favicon_png is None || inp.favicon_png->0@ != i@)
            ==> p.copy_icon_to_favicon,
        inp.icon_png matches Some(i) && inp.favicon_png matches Some(f) && f@ == i@
            ==> !p.copy_icon_to_favicon,
        inp.icon_png is None ==> !p.copy_icon_to_favicon,
{
}

/// A run that reports `ok` for an app has not failed.
pub proof fn law_passed_means_not_failed(inp: IconCheckInput, fail_before: bool)
    ensures
        icon_check_spec(inp, fail_before).0.contains(IconFinding::Passed) ==> !icon_check_spec(
            inp,
            fail_before,
        ).1,
{
    let r = icon_check_spec(inp, fail_before);
    if r.0.contains(IconFinding::Passed) && r.1 {
        let k = choose|k: int| 0 <= k < r.0.len() && r.0[k] == IconFinding::Passed;
        if !inp.has_frontend && !inp.has_dashboard {
            assert(r.0 =~= seq![IconFinding::SkippedNoWebUi]);
        } else if !file_exists(inp.favicon_png) && !file_exists(inp.favicon_jpg) && !file_exists(
            inp.icon_png,
        ) {
            assert(r.0 =~= seq![IconFinding::MissingFavicon]);
        } else {
            let fav = if file_exists(inp.favicon_png) {
                inp.favicon_png
            } else if file_exists(inp.favicon_jpg) {
                inp.favicon_jpg
            } else {
                inp.icon_png
            };
            let fav_is_png = file_exists(inp.favicon_png) || !file_exists(inp.favicon_jpg);
            let s1: Seq<IconFinding> = if file_exists(inp.icon_png) && fav_is_png && file_md5(fav)
                is Some && file_md5(inp.icon_png) is Some && file_md5(fav) != file_md5(inp.icon_png) {
                seq![IconFinding::FaviconDiffersFromIcon]
            } else {
                Seq::empty()
            };
            let legacy = is_legacy_svg(inp.favicon_svg);
            let s2 = s1 + if legacy {
                seq![IconFinding::LegacySvgFavicon]
            } else {
                Seq::empty()
            };
            assert forall|i: int| 0 <= i < s2.len() implies s2[i] != IconFinding::Passed by {
                if i < s1.len() {
                }
            }
            match inp.index_html {
                TextFile::Text(c) => match index_findings_spec(c@) {
                    None => {
                        assert(r.0 == s2.push(IconFinding::PatternError));
                        if k < s2.len() {
                            assert(r.0[k] == s2[k]);
                        }
                    },
                    Some(fs) => {
                        assert(r.0 == s2 + fs);
                        if k < s2.len() {
                            assert(r.0[k] == s2[k]);
                        } else {
                            assert(r.0[k] == fs[k - s2.len()]);
                        }
                    },
                },
                _ => {
                    assert(r.0 == s2);
                    assert(r.0[k] == s2[k]);
                },
            }
        }
    }
}

} // verus!
