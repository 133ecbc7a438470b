//! Header decisions: the title link, tooltips and which controls are
//! enabled.

use vstd::prelude::*;
use super::footer::{github_org_url, nonblank, nonblank_spec, opt_view};
use crate::i18n::language::Language;
use crate::i18n::strings::{lookup, text_spec, StringKey};
use crate::text::{
    ascii_lower, ascii_lower_spec, chars_eq_str, chars_of, eq_ignore_ascii_case,
    eq_ignore_ascii_case_spec, extend_chars, extend_str, is_ascii_alphanumeric,
    is_ascii_alphanumeric_spec, string_of,
};

verus! {

/// A repository slug from a display title: its ASCII letters and digits,
/// lower-cased, everything else dropped.
pub open spec fn title_slug_spec(title: Seq<char>) -> Seq<char>
    decreases title.len(),
{
    if title.len() == 0 {
        title
    } else if is_ascii_alphanumeric_spec(title.last()) {
        title_slug_spec(title.drop_last()).push(ascii_lower_spec(title.last()))
    } else {
        title_slug_spec(title.drop_last())
    }
}

/// The header title link: an explicit non-blank `site_url` (trimmed), else
/// the studio2201 repository `repo` when non-blank, else the repository
/// named by the title's slug.
pub open spec fn title_href_spec(
    site_url: Option<Seq<char>>,
    repo: Option<Seq<char>>,
    site_title: Seq<char>,
) -> Seq<char> {
    match nonblank_spec(site_url) {
        Some(url) => url,
        None => match nonblank_spec(repo) {
            Some(r) => github_org_url() + r,
            None => github_org_url() + title_slug_spec(site_title),
        },
    }
}

/// The slug of a display title.
pub fn title_slug(title: &str) -> (r: Vec<char>)
    ensures
        r@ == title_slug_spec(title@),
{
    let c = chars_of(title);
    let mut out: Vec<char> = Vec::new();
    let mut i: usize = 0;
    assert(c@.take(0) =~= Seq::<char>::empty());
    while i < c.len()
        invariant
            i <= c@.len(),
            out@ == title_slug_spec(c@.take(i as int)),
        decreases c@.len() - i,
    {
        assert(c@.take(i + 1).drop_last() =~= c@.take(i as int));
        if is_ascii_alphanumeric(c[i]) {
            out.push(ascii_lower(c[i]));
        }
        i = i + 1;
    }
    assert(c@.take(c@.len() as int) =~= c@);
    out
}

/// Build the header title `href`.
///
/// Priority:
/// 1. explicit `site_url` if non-blank
/// 2. `https://github.com/studio2201/{repo}` if `repo` is non-blank
/// 3. `https://github.com/studio2201/{slug}` where `slug` is `site_title`
///    lower-cased with everything but ASCII letters and digits stripped
pub fn resolve_title_href(site_url: Option<&str>, repo: Option<&str>, site_title: &str) -> (r:
    String)
    ensures
        r@ == title_href_spec(opt_view(site_url), opt_view(repo), site_title@),
{
    if let Some(url) = nonblank(site_url) {
        return string_of(&url);
    }
    let mut out: Vec<char> = Vec::new();
    extend_str(&mut out, "https://github.com/studio2201/");
    match nonblank(repo) {
        Some(r) => extend_chars(&mut out, &r),
        None => {
            let slug = title_slug(site_title);
            extend_chars(&mut out, &slug);
        },
    }
    string_of(&out)
}

/// The accessible label of the title link: `Open {site_title} on GitHub`.
pub fn title_label(site_title: &str) -> (r: String)
    ensures
        r@ == "Open "@ + site_title@ + " on GitHub"@,
{
    let mut out: Vec<char> = Vec::new();
    extend_str(&mut out, "Open ");
    extend_str(&mut out, site_title);
    extend_str(&mut out, " on GitHub");
    string_of(&out)
}

/// The override tooltip if non-empty, otherwise the localized default.
pub fn tooltip_or_override(override_text: &str, key: StringKey, lang: Language) -> (r: String)
    ensures
        r@ == if override_text@.len() > 0 {
            override_text@
        } else {
            text_spec(key, lang)
        },
{
    if !override_text.is_empty() {
        return String::from_str(override_text);
    }
    String::from_str(lookup(key, lang))
}

/// Printing is allowed when no PIN is required or the user is signed in.
pub fn print_allowed(pin_required: bool, is_authenticated: bool) -> (r: bool)
    ensures
        r == (!pin_required || is_authenticated),
{
    !pin_required || is_authenticated
}

/// The print button is disabled when the app disables it or printing is
/// not allowed.
pub fn print_button_disabled(pin_required: bool, is_authenticated: bool, print_disabled: bool) -> (r:
    bool)
    ensures
        r == (print_disabled || (pin_required && !is_authenticated)),
{
    print_disabled || !print_allowed(pin_required, is_authenticated)
}

/// The logout button is disabled unless a PIN is required and the user is
/// signed in.
pub fn logout_button_disabled(is_authenticated: bool, pin_required: bool) -> (r: bool)
    ensures
        r == (!is_authenticated || !pin_required),
{
    !is_authenticated || !pin_required
}

/// The tooltip shown on the logout button: none while it is disabled.
pub fn logout_tooltip_shown(disabled: bool, tooltip: String) -> (r: String)
    ensures
        r@ == if disabled {
            Seq::<char>::empty()
        } else {
            tooltip@
        },
{
    if disabled {
        String::new()
    } else {
        tooltip
    }
}

/// A form field's tag name (`input`, `textarea` or `select`, in any ASCII
/// case), where typing must not trigger keyboard shortcuts.
pub open spec fn is_form_field_tag_spec(tag: Seq<char>) -> bool {
    ||| eq_ignore_ascii_case_spec(tag, "input"@)
    ||| eq_ignore_ascii_case_spec(tag, "textarea"@)
    ||| eq_ignore_ascii_case_spec(tag, "select"@)
}

/// Whether `tag` names a form field.
pub fn is_form_field_tag(tag: &str) -> (r: bool)
    ensures
        r == is_form_field_tag_spec(tag@),
{
    let t = chars_of(tag);
    let input = chars_of("input");
    let textarea = chars_of("textarea");
    let select = chars_of("select");
    eq_ignore_ascii_case(&t, &input) || eq_ignore_ascii_case(&t, &textarea)
        || eq_ignore_ascii_case(&t, &select)
}

/// Whether a key press toggles the theme: themes are enabled, the key is
/// `t` or `T`, and the press is not in a form field (`target_tag` is the
/// tag name of the element it was aimed at, if any).
pub fn theme_shortcut(enable_themes: bool, key: &str, target_tag: Option<&str>) -> (r: bool)
    ensures
        r == (enable_themes && (key@ == "t"@ || key@ == "T"@) && !(target_tag matches Some(t)
            && is_form_field_tag_spec(t@))),
{
    if !enable_themes {
        return false;
    }
    let in_field = match target_tag {
        Some(t) => is_form_field_tag(t),
        None => false,
    };
    if in_field {
        return false;
    }
    let k = chars_of(key);
    chars_eq_str(&k, "t") || chars_eq_str(&k, "T")
}

/// What a click on the print button does.
#[derive(Clone, Copy, Debug, PartialEq, Eq, Structural)]
pub enum PrintAction {
    /// Nothing: printing is not allowed.
    Ignore,
    /// Hand the click to the app's print callback.
    Callback,
    /// Open the browser's print dialog.
    WindowPrint,
}

/// The print click's action: ignored unless printing is allowed; then the
/// app's callback when it gave one, else the browser's print dialog.
pub fn print_action(pin_required: bool, is_authenticated: bool, has_callback: bool) -> (r:
    PrintAction)
    ensures
        r == if pin_required && !is_authenticated {
            PrintAction::Ignore
        } else if has_callback {
            PrintAction::Callback
        } else {
            PrintAction::WindowPrint
        },
{
    if !print_allowed(pin_required, is_authenticated) {
        PrintAction::Ignore
    } else if has_callback {
        PrintAction::Callback
    } else {
        PrintAction::WindowPrint
    }
}

/// A title slug holds only lower-case ASCII letters and digits.
pub proof fn law_title_slug_charset(title: Seq<char>)
    ensures
        forall|i: int|
            0 <= i < title_slug_spec(title).len() ==> {
                let c = #[trigger] title_slug_spec(title)[i];
                ('0' <= c && c <= '9') || ('a' <= c && c <= 'z')
            },
    decreases title.len(),
{
    if title.len() > 0 {
        law_title_slug_charset(title.drop_last());
        let c = title.last();
        let prev = title_slug_spec(title.drop_last());
        if is_ascii_alphanumeric_spec(c) {
            lemma_ascii_lower_alnum(c);
        }
        assert forall|i: int| 0 <= i < title_slug_spec(title).len() implies {
            let d = #[trigger] title_slug_spec(title)[i];
            ('0' <= d && d <= '9') || ('a' <= d && d <= 'z')
        } by {
            if i < prev.len() {
                assert(title_slug_spec(title)[i] == prev[i]);
            }
        }
    }
}

proof fn lemma_ascii_lower_alnum(c: char)
    requires
        is_ascii_alphanumeric_spec(c),
    ensures
        ('0' <= ascii_lower_spec(c) && ascii_lower_spec(c) <= '9') || ('a' <= ascii_lower_spec(c)
            && ascii_lower_spec(c) <= 'z'),
{
    if 'A' <= c && c <= 'Z' {
        let b = c as u8;
        assert(b as int == c as int);
        assert(65 <= b <= 90);
    }
}

} // verus!
