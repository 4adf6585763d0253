//! Extracting a media URL from an HTML page: scan the page for meta
//! tags, keep those naming a known media property, read their `content`
//! attribute, and resolve it against the page URL. This is how a link
//! to a landing page is turned into a link to the image or video it
//! embeds.

use vstd::prelude::*;

use crate::text;

verus! {

/// The media properties a useful meta tag names.
pub open spec fn spec_is_media_tag(tag: Seq<char>) -> bool {
    ||| text::spec_contains_ci(tag, "og:video"@)
    ||| text::spec_contains_ci(tag, "og:video:url"@)
    ||| text::spec_contains_ci(tag, "og:image"@)
    ||| text::spec_contains_ci(tag, "og:image:url"@)
    ||| text::spec_contains_ci(tag, "twitter:image"@)
    ||| text::spec_contains_ci(tag, "twitter:image:src"@)
    ||| text::spec_contains_ci(tag, "twitter:player:stream"@)
}

fn is_media_tag(tag: &str) -> (r: bool)
    ensures
        r == spec_is_media_tag(tag@),
{
    text::str_contains_ci(tag, "og:video") || text::str_contains_ci(tag, "og:video:url")
        || text::str_contains_ci(tag, "og:image") || text::str_contains_ci(
        tag,
        "og:image:url",
    ) || text::str_contains_ci(tag, "twitter:image") || text::str_contains_ci(
        tag,
        "twitter:image:src",
    ) || text::str_contains_ci(tag, "twitter:player:stream")
}

/// A word character, as a word boundary is decided.
pub open spec fn spec_is_word_char(c: char) -> bool {
    ||| (65 <= c as u32 && c as u32 <= 90)
    ||| (97 <= c as u32 && c as u32 <= 122)
    ||| (48 <= c as u32 && c as u32 <= 57)
    ||| c == '_'
}

fn is_word_char(c: char) -> (r: bool)
    ensures
        r == spec_is_word_char(c),
{
    let u = c as u32;
    (65 <= u && u <= 90) || (97 <= u && u <= 122) || (48 <= u && u <= 57) || c == '_'
}

/// The end of the run of whitespace starting at `j`.
pub open spec fn spec_ws_end(s: Seq<char>, j: int) -> int
    decreases s.len() - j,
{
    if j < 0 || j >= s.len() {
        s.len() as int
    } else if !text::spec_is_whitespace(s[j]) {
        j
    } else {
        spec_ws_end(s, j + 1)
    }
}

proof fn lemma_ws_end_at(s: Seq<char>, from: int, j: int)
    requires
        0 <= from <= j <= s.len(),
        forall|k: int| from <= k < j ==> text::spec_is_whitespace(s[k]),
        j == s.len() || !text::spec_is_whitespace(s[j]),
    ensures
        spec_ws_end(s, from) == j,
    decreases j - from,
{
    if from < j {
        lemma_ws_end_at(s, from + 1, j);
    }
}

/// The position of the first quote character (single or double) at or
/// after `j`.
pub open spec fn spec_quote_end(s: Seq<char>, j: int) -> int
    decreases s.len() - j,
{
    if j < 0 || j >= s.len() {
        s.len() as int
    } else if s[j] == '"' || s[j] == '\'' {
        j
    } else {
        spec_quote_end(s, j + 1)
    }
}

proof fn lemma_quote_end_at(s: Seq<char>, from: int, j: int)
    requires
        0 <= from <= j <= s.len(),
        forall|k: int| from <= k < j ==> (s[k] != '"' && s[k] != '\''),
        j == s.len() || s[j] == '"' || s[j] == '\'',
    ensures
        spec_quote_end(s, from) == j,
    decreases j - from,
{
    if from < j {
        lemma_quote_end_at(s, from + 1, j);
    }
}

/// The quoted value of a `content` attribute written at position `p`:
/// the word `content` on a word boundary, optional whitespace around
/// `=`, and a nonempty quoted string (either quote closes either).
pub open spec fn spec_content_at(t: Seq<char>, p: int) -> Option<Seq<char>> {
    let word = "content"@;
    if !text::spec_match_at_ci(t, word, p) || (p > 0 && spec_is_word_char(t[p - 1])) {
        Option::None
    } else {
        let a = spec_ws_end(t, p + word.len());
        if a >= t.len() || t[a] != '=' {
            Option::None
        } else {
            let b = spec_ws_end(t, a + 1);
            if b >= t.len() || (t[b] != '"' && t[b] != '\'') {
                Option::None
            } else {
                let k = spec_quote_end(t, b + 1);
                if k > b + 1 && k < t.len() {
                    Option::Some(t.subrange(b + 1, k))
                } else {
                    Option::None
                }
            }
        }
    }
}

/// The first `content` attribute value in `t` at or after `p`.
pub open spec fn spec_first_content_from(t: Seq<char>, p: int) -> Option<Seq<char>>
    decreases t.len() - p,
{
    if p < 0 || p >= t.len() {
        Option::None
    } else if spec_content_at(t, p) is Some {
        spec_content_at(t, p)
    } else {
        spec_first_content_from(t, p + 1)
    }
}

fn first_content(t: &str) -> (r: Option<String>)
    ensures
        text::opt_string_view(r) == spec_first_content_from(t@, 0),
{
    let n = t.unicode_len();
    let word = "content";
    let word_len = word.unicode_len();
    proof {
        reveal_strlit("content");
    }
    let mut p: usize = 0;
    while p < n
        invariant
            0 <= p <= n,
            n == t@.len(),
            word@ == "content"@,
            word_len == word@.len(),
            spec_first_content_from(t@, 0) == spec_first_content_from(t@, p as int),
        decreases n - p,
    {
        let mut matched = false;
        if word_len <= n - p {
            let boundary = p == 0 || !is_word_char(t.get_char(p - 1));
            if boundary && match_at_ci_exec(t, word, p, n, word_len) {
                matched = true;
                let mut a: usize = p + word_len;
                while a < n && text::is_whitespace_char(t.get_char(a))
                    invariant
                        p + word_len <= a <= n,
                        n == t@.len(),
                        forall|k: int|
                            p + word_len <= k < a ==> text::spec_is_whitespace(t@[k]),
                    decreases n - a,
                {
                    a += 1;
                }
                proof {
                    lemma_ws_end_at(t@, p as int + word_len as int, a as int);
                }
                if a < n && t.get_char(a) == '=' {
                    let mut b: usize = a + 1;
                    while b < n && text::is_whitespace_char(t.get_char(b))
                        invariant
                            a + 1 <= b <= n,
                            n == t@.len(),
                            forall|k: int|
                                a + 1 <= k < b ==> text::spec_is_whitespace(t@[k]),
                        decreases n - b,
                    {
                        b += 1;
                    }
                    proof {
                        lemma_ws_end_at(t@, a as int + 1, b as int);
                    }
                    if b < n && (t.get_char(b) == '"' || t.get_char(b) == '\'') {
                        let mut k: usize = b + 1;
                        while k < n && t.get_char(k) != '"' && t.get_char(k) != '\''
                            invariant
                                b + 1 <= k <= n,
                                n == t@.len(),
                                forall|q: int|
                                    b + 1 <= q < k ==> (t@[q] != '"' && t@[q] != '\''),
                            decreases n - k,
                        {
                            k += 1;
                        }
                        proof {
                            lemma_quote_end_at(t@, b as int + 1, k as int);
                        }
                        if k > b + 1 && k < n {
                            let value = t.substring_char(b + 1, k).to_owned();
                            proof {
                                assert(spec_content_at(t@, p as int) == Option::Some(
                                    value@,
                                ));
                            }
                            return Some(value);
                        }
                    }
                }
                proof {
                    assert(spec_content_at(t@, p as int) is None);
                }
            }
        }
        proof {
            if !matched {
                assert(spec_content_at(t@, p as int) is None);
            }
        }
        p += 1;
    }
    Option::None
}

/// Whether a candidate value is usable: nonempty after trimming and not
/// an inline `data:` payload.
pub open spec fn spec_usable_content(v: Seq<char>) -> bool {
    &&& text::spec_trim(v).len() > 0
    &&& !text::spec_starts_with(text::spec_trim(v), "data:"@)
}

/// The URL string `s` reads as when it is an absolute URL, in its
/// normalized written form; a function of the string alone.
pub uninterp spec fn url_normalized_of(s: Seq<char>) -> Option<Seq<char>>;

/// Relies on `url::Url::parse` and the `Display` rendering of `url::Url`
/// (reqwest re-exports this type as `reqwest::Url`): parses an absolute
/// URL and writes it back in normalized form; fails exactly when the
/// string is no absolute URL. Both depend on the string alone.
#[verifier::external_body]
fn resolve_absolute_url(s: &str) -> (r: Option<String>)
    ensures
        text::opt_string_view(r) == url_normalized_of(s@),
{
    match url::Url::parse(s) {
        Ok(parsed) => Some(parsed.to_string()),
        Err(_) => Option::None,
    }
}

/// The URL that `rel` resolves to against the absolute base URL `base`,
/// in normalized written form; a function of the two strings alone.
pub uninterp spec fn url_joined_of(base: Seq<char>, rel: Seq<char>) -> Option<Seq<char>>;

/// Relies on `url::Url::parse`, `url::Url::join` and the `Display`
/// rendering of `url::Url`: resolves `rel` against `base`; fails when
/// `base` is no absolute URL or the join fails. The result depends on
/// the two strings alone.
#[verifier::external_body]
fn join_url(base: &str, rel: &str) -> (r: Option<String>)
    ensures
        text::opt_string_view(r) == url_joined_of(base@, rel@),
{
    match url::Url::parse(base) {
        Ok(b) => match b.join(rel) {
            Ok(joined) => Some(joined.to_string()),
            Err(_) => Option::None,
        },
        Err(_) => Option::None,
    }
}

/// What one meta tag contributes: its `content` value, trimmed, when
/// the tag names a media property and the value is usable, resolved as
/// an absolute URL or against the page URL.
pub open spec fn spec_tag_result(t: Seq<char>, base: Seq<char>) -> Option<Seq<char>> {
    if !spec_is_media_tag(t) {
        Option::None
    } else {
        match spec_first_content_from(t, 0) {
            Option::None => Option::None,
            Option::Some(raw) => {
                if !spec_usable_content(raw) {
                    Option::None
                } else {
                    let v = text::spec_trim(raw);
                    match url_normalized_of(v) {
                        Option::Some(u) => Option::Some(u),
                        Option::None => url_joined_of(base, v),
                    }
                }
            },
        }
    }
}

fn tag_result(t: &str, base: &str) -> (r: Option<String>)
    ensures
        text::opt_string_view(r) == spec_tag_result(t@, base@),
{
    if !is_media_tag(t) {
        return Option::None;
    }
    let raw = match first_content(t) {
        Some(raw) => raw,
        Option::None => {
            return Option::None;
        },
    };
    let value = text::trim_str(raw.as_str());
    if value.unicode_len() == 0 || text::str_starts_with(value, "data:") {
        proof {
            reveal_strlit("data:");
        }
        return Option::None;
    }
    if let Some(resolved) = resolve_absolute_url(value) {
        return Some(resolved);
    }
    join_url(base, value)
}

/// Where the meta tag opened at `i` ends: the tag opener (ignoring
/// case) must be followed by at least one whitespace character, and the
/// tag runs to the first `'>'` after it.
pub open spec fn spec_meta_end_at(s: Seq<char>, i: int) -> Option<int> {
    let opener = "<meta"@;
    if !text::spec_match_at_ci(s, opener, i) {
        Option::None
    } else if i + opener.len() >= s.len() || !text::spec_is_whitespace(
        s[i + opener.len()],
    ) {
        Option::None
    } else {
        let g = text::spec_find_char(s, i + opener.len(), '>');
        if g < s.len() {
            Option::Some(g)
        } else {
            Option::None
        }
    }
}

/// The first media URL a page names in a meta tag at or after `i`:
/// tags are scanned left to right, and after a complete tag the scan
/// continues behind it.
pub open spec fn spec_extract_from(s: Seq<char>, base: Seq<char>, i: int) -> Option<
    Seq<char>,
>
    decreases s.len() - i,
    when 0 <= i
    via spec_extract_from_decreases
{
    if i >= s.len() {
        Option::None
    } else {
        match spec_meta_end_at(s, i) {
            Option::None => spec_extract_from(s, base, i + 1),
            Option::Some(g) => {
                let t = s.subrange(i, g + 1);
                match spec_tag_result(t, base) {
                    Option::Some(u) => Option::Some(u),
                    Option::None => spec_extract_from(s, base, g + 1),
                }
            },
        }
    }
}

#[via_fn]
proof fn spec_extract_from_decreases(s: Seq<char>, base: Seq<char>, i: int) {
    if 0 <= i < s.len() {
        if spec_meta_end_at(s, i) is Some {
            text::lemma_find_char_bounds(s, i + "<meta"@.len(), '>');
        }
    }
}

/// The first media URL a page names.
pub open spec fn spec_extract_media_url(s: Seq<char>, base: Seq<char>) -> Option<
    Seq<char>,
> {
    spec_extract_from(s, base, 0)
}

fn match_at_ci_exec(s: &str, n: &str, i: usize, s_len: usize, n_len: usize) -> (r: bool)
    requires
        s_len == s@.len(),
        n_len == n@.len(),
        i + n_len <= s_len,
    ensures
        r == text::spec_match_at_ci(s@, n@, i as int),
{
    text::str_match_at_ci(s, n, i, s_len, n_len)
}

/// Finds the first media URL named by a meta tag of an HTML page:
/// scans for `<meta ...>` tags (ignoring case) that name a media
/// property, reads their `content` attribute, and resolves it as an
/// absolute URL or against the page URL `base_url`.
pub fn extract_media_url_from_meta_tags(html: &str, base_url: &str) -> (r: Option<String>)
    ensures
        text::opt_string_view(r) == spec_extract_media_url(html@, base_url@),
{
    let n = html.unicode_len();
    let opener = "<meta";
    let opener_len = opener.unicode_len();
    proof {
        reveal_strlit("<meta");
    }
    let mut i: usize = 0;
    while i < n
        invariant
            0 <= i <= n,
            n == html@.len(),
            opener@ == "<meta"@,
            opener_len == opener@.len(),
            spec_extract_media_url(html@, base_url@) == spec_extract_from(
                html@,
                base_url@,
                i as int,
            ),
        decreases n - i,
    {
        let mut tag_end: usize = 0;
        let mut found = false;
        if opener_len < n - i && match_at_ci_exec(html, opener, i, n, opener_len) {
            let after = i + opener_len;
            if text::is_whitespace_char(html.get_char(after)) {
                let mut g: usize = after;
                while g < n && html.get_char(g) != '>'
                    invariant
                        after <= g <= n,
                        n == html@.len(),
                        forall|k: int| after <= k < g ==> html@[k] != '>',
                    decreases n - g,
                {
                    g += 1;
                }
                proof {
                    text::lemma_find_char_bounds(html@, after as int, '>');
                    let f = text::spec_find_char(html@, after as int, '>');
                    if f < g {
                        assert(html@[f] == '>');
                    }
                    if g < f {
                        assert(html@[g as int] != '>');
                    }
                }
                if g < n {
                    found = true;
                    tag_end = g;
                }
            }
        }
        if found {
            proof {
                assert(spec_meta_end_at(html@, i as int) == Option::Some(tag_end as int));
            }
            let tag = html.substring_char(i, tag_end + 1);
            if let Some(url) = tag_result(tag, base_url) {
                return Some(url);
            }
            i = tag_end + 1;
        } else {
            proof {
                assert(spec_meta_end_at(html@, i as int) is None);
            }
            i += 1;
        }
    }
    Option::None
}

/// Whether a response's content type says the body is an HTML page,
/// ignoring ASCII case.
pub fn is_html_content_type(content_type: &str) -> (r: bool)
    ensures
        r == text::spec_contains_ci(content_type@, "text/html"@),
{
    text::str_contains_ci(content_type, "text/html")
}

} // verus!
