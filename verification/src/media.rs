//! Media classification for chat previews: deciding from a response's
//! content type or a URL's file extension whether a link is displayable
//! as an image or a video.

use vstd::prelude::*;

use crate::text;

verus! {

/// The classification a content-type header value yields: its first
/// `';'`-free field, trimmed, marks an image or a video by its prefix.
pub open spec fn spec_classify_content_type(ct: Seq<char>) -> Option<Seq<char>> {
    let norm = text::spec_trim(ct.subrange(0, text::spec_find_char(ct, 0, ';')));
    if text::spec_starts_with(norm, "image/"@) {
        Option::Some("image"@)
    } else if text::spec_starts_with(norm, "video/"@) {
        Option::Some("video"@)
    } else {
        Option::None
    }
}

/// Classifies a (already lower-cased) content-type header value as
/// `"image"` or `"video"`, by the media type before any parameters.
pub fn classify_media_from_content_type(content_type: &str) -> (r: Option<&'static str>)
    ensures
        text::opt_str_view(r) == spec_classify_content_type(content_type@),
{
    let n = content_type.unicode_len();
    let mut cut: usize = 0;
    while cut < n && content_type.get_char(cut) != ';'
        invariant
            0 <= cut <= n,
            n == content_type@.len(),
            forall|j: int| 0 <= j < cut ==> content_type@[j] != ';',
        decreases n - cut,
    {
        cut += 1;
    }
    proof {
        text::lemma_find_char_at(content_type@, ';', cut as int);
    }
    let prefix = content_type.substring_char(0, cut);
    let norm = text::trim_str(prefix);
    if text::str_starts_with(norm, "image/") {
        Some("image")
    } else if text::str_starts_with(norm, "video/") {
        Some("video")
    } else {
        Option::None
    }
}

/// The classification a URL path yields: the file name after the last
/// `'/'`, folded to lower case, must carry a known image or video
/// extension after its last `'.'`.
pub open spec fn spec_classify_path(path: Seq<char>) -> Option<Seq<char>> {
    let fname = text::spec_lower(
        path.subrange(text::spec_last_char(path, '/') + 1, path.len() as int),
    );
    let d = text::spec_last_char(fname, '.');
    if d < 0 {
        Option::None
    } else {
        let ext = fname.subrange(d + 1, fname.len() as int);
        if ext == "png"@ || ext == "jpg"@ || ext == "jpeg"@ || ext == "gif"@ || ext
            == "webp"@ || ext == "bmp"@ || ext == "svg"@ || ext == "avif"@ || ext
            == "apng"@ {
            Option::Some("image"@)
        } else if ext == "mp4"@ || ext == "webm"@ || ext == "mov"@ || ext == "gifv"@ {
            Option::Some("video"@)
        } else {
            Option::None
        }
    }
}

/// Classifies a URL path as `"image"` or `"video"` by the extension of
/// its file name.
pub fn classify_media_from_path(path: &str) -> (r: Option<&'static str>)
    ensures
        text::opt_str_view(r) == spec_classify_path(path@),
{
    let n = path.unicode_len();
    let mut j: usize = n;
    while j > 0 && path.get_char(j - 1) != '/'
        invariant
            0 <= j <= n,
            n == path@.len(),
            forall|k: int| j <= k < n ==> path@[k] != '/',
        decreases j,
    {
        j -= 1;
    }
    proof {
        text::lemma_last_char_at(path@, '/', j as int - 1);
    }
    let fname = text::lower_string(path.substring_char(j, n));
    let f = fname.as_str();
    let m = f.unicode_len();
    let mut d: usize = m;
    while d > 0 && f.get_char(d - 1) != '.'
        invariant
            0 <= d <= m,
            m == f@.len(),
            forall|k: int| d <= k < m ==> f@[k] != '.',
        decreases d,
    {
        d -= 1;
    }
    proof {
        text::lemma_last_char_at(f@, '.', d as int - 1);
    }
    if d == 0 {
        return Option::None;
    }
    let ext = f.substring_char(d, m);
    if text::str_eq(ext, "png") || text::str_eq(ext, "jpg") || text::str_eq(ext, "jpeg")
        || text::str_eq(ext, "gif") || text::str_eq(ext, "webp") || text::str_eq(
        ext,
        "bmp",
    ) || text::str_eq(ext, "svg") || text::str_eq(ext, "avif") || text::str_eq(
        ext,
        "apng",
    ) {
        Some("image")
    } else if text::str_eq(ext, "mp4") || text::str_eq(ext, "webm") || text::str_eq(
        ext,
        "mov",
    ) || text::str_eq(ext, "gifv") {
        Some("video")
    } else {
        Option::None
    }
}

/// The path component of `s` read as an absolute URL, when `s` is one;
/// a function of the URL string alone.
pub uninterp spec fn url_path_of(s: Seq<char>) -> Option<Seq<char>>;

/// Relies on `url::Url::parse` and `url::Url::path` (reqwest re-exports
/// this type as `reqwest::Url`): parses an absolute URL and reads its
/// path component; parsing fails exactly when the string is no absolute
/// URL, and both results depend on the string alone.
#[verifier::external_body]
fn url_path_component(u: &str) -> (r: Option<String>)
    ensures
        text::opt_string_view(r) == url_path_of(u@),
{
    match url::Url::parse(u) {
        Ok(parsed) => Some(parsed.path().to_string()),
        Err(_) => Option::None,
    }
}

/// The classification a URL yields: the URL must parse and its path's
/// file name must carry a known media extension.
pub open spec fn spec_classify_url(u: Seq<char>) -> Option<Seq<char>> {
    match url_path_of(u) {
        Option::Some(p) => spec_classify_path(p),
        Option::None => Option::None,
    }
}

/// Classifies a URL as `"image"` or `"video"` by the file extension of
/// its path.
pub fn classify_media_from_url_path(u: &str) -> (r: Option<&'static str>)
    ensures
        text::opt_str_view(r) == spec_classify_url(u@),
{
    match url_path_component(u) {
        Some(path) => classify_media_from_path(path.as_str()),
        Option::None => Option::None,
    }
}

/// The outcome of probing a URL for displayable media.
pub struct MediaProbe {
    pub displayable: bool,
    pub kind: String,
    pub final_url: String,
}

/// The kind a probe decides on: the content type (lower-cased) wins;
/// otherwise the final URL's extension, then the original URL's.
pub open spec fn spec_probe_kind(
    ct: Option<Seq<char>>,
    final_url: Seq<char>,
    original_url: Seq<char>,
) -> Option<Seq<char>> {
    let from_ct = match ct {
        Option::Some(c) => spec_classify_content_type(text::spec_lower(c)),
        Option::None => Option::None,
    };
    if from_ct is Some {
        from_ct
    } else if spec_classify_url(final_url) is Some {
        spec_classify_url(final_url)
    } else {
        spec_classify_url(original_url)
    }
}

/// Decides the probe outcome for a URL from the response's content type
/// (if any was seen) and the final and original URLs. The reported URL
/// is always the final one.
pub fn decide_media_probe(content_type: Option<&str>, final_url: &str, original_url: &str)
    -> (r: MediaProbe)
    ensures
        r.final_url@ == final_url@,
        (match spec_probe_kind(
            text::opt_str_view(content_type),
            final_url@,
            original_url@,
        ) {
            Option::Some(k) => r.displayable && r.kind@ == k,
            Option::None => !r.displayable && r.kind@ == "none"@,
        }),
{
    if let Some(ct) = content_type {
        let lowered = text::lower_string(ct);
        if let Some(kind) = classify_media_from_content_type(lowered.as_str()) {
            return MediaProbe {
                displayable: true,
                kind: kind.to_owned(),
                final_url: final_url.to_owned(),
            };
        }
    }
    if let Some(kind) = classify_media_from_url_path(final_url) {
        return MediaProbe {
            displayable: true,
            kind: kind.to_owned(),
            final_url: final_url.to_owned(),
        };
    }
    if let Some(kind) = classify_media_from_url_path(original_url) {
        return MediaProbe {
            displayable: true,
            kind: kind.to_owned(),
            final_url: final_url.to_owned(),
        };
    }
    MediaProbe {
        displayable: false,
        kind: "none".to_owned(),
        final_url: final_url.to_owned(),
    }
}

} // verus!
