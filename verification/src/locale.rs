//! Locale decisions: reading the `lang` cookie, writing it, and choosing
//! the UI locale from the saved cookie or the browser's language.

use vstd::prelude::*;
use crate::text::{
    chars_of, extend_str, has_prefix, is_whitespace_spec, lemma_split_nonempty, split_chars,
    split_spec, starts_with, string_of, suffix_from, trim, trim_end_spec, trim_spec,
    trim_start_spec,
};

verus! {

/// `s` without leading and trailing `"` characters.
pub open spec fn trim_quotes_spec(s: Seq<char>) -> Seq<char>
    decreases s.len(),
{
    if s.len() > 0 && s[0] == '"' {
        trim_quotes_spec(s.drop_first())
    } else if s.len() > 0 && s.last() == '"' {
        trim_quotes_spec(s.drop_last())
    } else {
        s
    }
}

/// The value of the first `lang=` cookie among `parts` (each trimmed),
/// with surrounding quotes removed.
pub open spec fn first_lang_value(parts: Seq<Seq<char>>) -> Option<Seq<char>>
    decreases parts.len(),
{
    if parts.len() == 0 {
        None
    } else if starts_with(trim_spec(parts[0]), "lang="@) {
        Some(trim_quotes_spec(trim_spec(parts[0]).skip("lang="@.len() as int)))
    } else {
        first_lang_value(parts.drop_first())
    }
}

/// The saved locale in a `document.cookie` string, if any.
pub open spec fn lang_cookie_spec(raw: Seq<char>) -> Option<Seq<char>> {
    first_lang_value(split_spec(raw, ';'))
}

/// The number of UTF-8 bytes of a character.
pub open spec fn utf8_len(c: char) -> int {
    if (c as u32) < 0x80 {
        1
    } else if (c as u32) < 0x800 {
        2
    } else if (c as u32) < 0x10000 {
        3
    } else {
        4
    }
}

/// The first two bytes of `raw` as text (`str::get(..2)`), when they end
/// on a character boundary; otherwise `"en"`.
pub open spec fn locale_prefix_spec(raw: Seq<char>) -> Seq<char> {
    if raw.len() >= 1 && utf8_len(raw[0]) == 2 {
        raw.take(1)
    } else if raw.len() >= 2 && utf8_len(raw[0]) == 1 && utf8_len(raw[1]) == 1 {
        raw.take(2)
    } else {
        "en"@
    }
}

/// The cookie that saves `locale`: `lang={locale}; Path=/; SameSite=Lax`.
pub open spec fn lang_cookie_string_spec(locale: Seq<char>) -> Seq<char> {
    "lang="@ + locale + "; Path=/; SameSite=Lax"@
}

fn utf8_width(c: char) -> (n: usize)
    ensures
        n == utf8_len(c),
{
    let v = c as u32;
    if v < 0x80 {
        1
    } else if v < 0x800 {
        2
    } else if v < 0x10000 {
        3
    } else {
        4
    }
}

fn trim_quotes(s: &[char]) -> (r: Vec<char>)
    ensures
        r@ == trim_quotes_spec(s@),
{
    let mut start: usize = 0;
    assert(s@.subrange(0, s@.len() as int) =~= s@);
    while start < s.len() && s[start] == '"'
        invariant
            start <= s@.len(),
            trim_quotes_spec(s@) == trim_quotes_spec(s@.subrange(start as int, s@.len() as int)),
        decreases s@.len() - start,
    {
        assert(s@.subrange(start as int, s@.len() as int).drop_first() =~= s@.subrange(
            start + 1,
            s@.len() as int,
        ));
        start = start + 1;
    }
    let mut end: usize = s.len();
    while end > start && s[end - 1] == '"'
        invariant
            start <= end <= s@.len(),
            trim_quotes_spec(s@) == trim_quotes_spec(s@.subrange(start as int, end as int)),
            start < end ==> s@[start as int] != '"',
        decreases end,
    {
        assert(s@.subrange(start as int, end as int).drop_last() =~= s@.subrange(
            start as int,
            end - 1,
        ));
        end = end - 1;
    }
    let mut out: Vec<char> = Vec::new();
    let mut i: usize = start;
    while i < end
        invariant
            start <= i <= end <= s@.len(),
            out@ == s@.subrange(start as int, i as int),
        decreases end - i,
    {
        out.push(s[i]);
        assert(s@.subrange(start as int, i as int).push(s@[i as int]) =~= s@.subrange(
            start as int,
            i + 1,
        ));
        i = i + 1;
    }
    out
}

/// Read the saved locale from a `document.cookie` string: the value of the
/// first `lang=` entry (entries split on `;` and trimmed), with surrounding
/// quotes removed.
pub fn parse_lang_cookie(raw: &str) -> (r: Option<String>)
    ensures
        match r {
            Some(v) => lang_cookie_spec(raw@) == Some(v@),
            None => lang_cookie_spec(raw@) is None,
        },
{
    let c = chars_of(raw);
    let parts = split_chars(&c, ';');
    let prefix = chars_of("lang=");
    let ghost all = split_spec(raw@, ';');
    let mut i: usize = 0;
    assert(all.skip(0) =~= all);
    while i < parts.len()
        invariant
            i <= parts@.len(),
            parts@.len() == all.len(),
            forall|j: int| 0 <= j < parts@.len() ==> (#[trigger] parts@[j])@ == all[j],
            prefix@ == "lang="@,
            all == split_spec(raw@, ';'),
            first_lang_value(all) == first_lang_value(all.skip(i as int)),
        decreases parts@.len() - i,
    {
        let t = trim(&parts[i]);
        assert(all.skip(i as int)[0] == all[i as int]);
        if has_prefix(&t, &prefix) {
            let v = suffix_from(&t, prefix.len());
            let q = trim_quotes(&v);
            return Some(string_of(&q));
        }
        assert(all.skip(i as int).drop_first() =~= all.skip(i + 1));
        i = i + 1;
    }
    None
}

/// The locale prefix of a browser language tag: its first two bytes when
/// they form whole characters (e.g. `de` of `de-AT`), else `en`.
pub fn locale_prefix(raw: &str) -> (r: String)
    ensures
        r@ == locale_prefix_spec(raw@),
{
    let c = chars_of(raw);
    if c.len() >= 1 && utf8_width(c[0]) == 2 {
        let mut out: Vec<char> = Vec::new();
        out.push(c[0]);
        assert(out@ =~= c@.take(1));
        return string_of(&out);
    }
    if c.len() >= 2 && utf8_width(c[0]) == 1 && utf8_width(c[1]) == 1 {
        let mut out: Vec<char> = Vec::new();
        out.push(c[0]);
        out.push(c[1]);
        assert(out@ =~= c@.take(2));
        return string_of(&out);
    }
    String::from_str("en")
}

/// The UI locale: the saved `lang` cookie when present, else the prefix of
/// the browser's language (`en` when it has none).
pub fn choose_locale(saved: Option<String>, browser_language: Option<&str>) -> (r: String)
    ensures
        saved is Some ==> r@ == saved->0@,
        saved is None ==> r@ == locale_prefix_spec(
            match browser_language {
                Some(l) => l@,
                None => Seq::empty(),
            },
        ),
{
    match saved {
        Some(s) => s,
        None => match browser_language {
            Some(l) => locale_prefix(l),
            None => {
                let r = locale_prefix("");
                proof {
                    reveal_strlit("");
                }
                r
            },
        },
    }
}

/// The cookie text that saves `locale`: `lang={locale}; Path=/; SameSite=Lax`.
pub fn lang_cookie_string(locale: &str) -> (r: String)
    ensures
        r@ == lang_cookie_string_spec(locale@),
{
    let mut out: Vec<char> = Vec::new();
    extend_str(&mut out, "lang=");
    extend_str(&mut out, locale);
    extend_str(&mut out, "; Path=/; SameSite=Lax");
    string_of(&out)
}

/// Splitting text joined at a separator splits each side.
pub proof fn lemma_split_concat(x: Seq<char>, y: Seq<char>, sep: char)
    ensures
        split_spec(x + seq![sep] + y, sep) == split_spec(x, sep) + split_spec(y, sep),
    decreases y.len(),
{
    let s = x + seq![sep] + y;
    if y.len() == 0 {
        assert(s.drop_last() =~= x);
        assert(split_spec(y, sep) =~= seq![Seq::<char>::empty()]);
        assert(split_spec(x, sep).push(Seq::empty()) =~= split_spec(x, sep) + seq![
            Seq::<char>::empty(),
        ]);
    } else {
        assert(s.drop_last() =~= x + seq![sep] + y.drop_last());
        assert(s.last() == y.last());
        lemma_split_concat(x, y.drop_last(), sep);
        lemma_split_nonempty(y.drop_last(), sep);
        let a = split_spec(x, sep);
        let b = split_spec(y.drop_last(), sep);
        if y.last() == sep {
            assert((a + b).push(Seq::empty()) =~= a + b.push(Seq::empty()));
        } else {
            let ab = a + b;
            assert(ab.last() == b.last());
            assert(ab.update(ab.len() - 1, ab.last().push(y.last())) =~= a + b.update(
                b.len() - 1,
                b.last().push(y.last()),
            ));
        }
    }
}

/// Text without the separator is a single piece.
pub proof fn lemma_split_single(x: Seq<char>, sep: char)
    requires
        forall|i: int| 0 <= i < x.len() ==> x[i] != sep,
    ensures
        split_spec(x, sep) == seq![x],
    decreases x.len(),
{
    if x.len() > 0 {
        lemma_split_single(x.drop_last(), sep);
        assert(x.drop_last().push(x.last()) =~= x);
        assert(x.last() != sep);
        assert(seq![x.drop_last()].update(0, x) =~= seq![x]);
    } else {
        assert(x =~= Seq::<char>::empty());
    }
}

/// A saved locale reads back: the cookie written by `lang_cookie_string`
/// is parsed by `parse_lang_cookie` to the same locale, for a locale with
/// no `;`, not ending in whitespace, and neither starting nor ending with
/// `"`.
pub proof fn law_lang_cookie_round_trip(locale: Seq<char>)
    requires
        forall|i: int| 0 <= i < locale.len() ==> locale[i] != ';',
        locale.len() > 0 ==> !is_whitespace_spec(locale.last()),
        locale.len() > 0 ==> locale[0] != '"' && locale.last() != '"',
    ensures
        lang_cookie_spec(lang_cookie_string_spec(locale)) == Some(locale),
{
    reveal_strlit("lang=");
    reveal_strlit("; Path=/; SameSite=Lax");
    let head = "lang="@ + locale;
    let tail = " Path=/; SameSite=Lax"@;
    reveal_strlit(" Path=/; SameSite=Lax");
    let cookie = lang_cookie_string_spec(locale);
    assert(cookie =~= head + seq![';'] + tail);
    lemma_split_concat(head, tail, ';');
    assert forall|i: int| 0 <= i < head.len() implies head[i] != ';' by {
        if i >= 5 {
            assert(head[i] == locale[i - 5]);
        }
    }
    lemma_split_single(head, ';');
    lemma_split_nonempty(tail, ';');
    let parts = split_spec(cookie, ';');
    assert(parts[0] == head);
    assert(head[0] == 'l');
    assert(head.last() == if locale.len() > 0 {
        locale.last()
    } else {
        '='
    });
    assert(trim_start_spec(head) == head);
    assert(trim_end_spec(head) == head);
    assert(head.take(5) =~= "lang="@);
    assert(head.skip(5) =~= locale);
}

} // verus!
