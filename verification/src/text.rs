//! Verified text helpers: trimming, ASCII case folding, prefix and
//! substring tests. These mirror the exact semantics of the standard
//! library operations the rest of the crate needs, stated over `Seq<char>`.

use vstd::prelude::*;

verus! {

/// The Unicode White_Space characters, the set `str::trim` removes.
pub open spec fn spec_is_whitespace(c: char) -> bool {
    ||| c == ' '
    ||| c == '\t'
    ||| c == '\n'
    ||| c == '\r'
    ||| c == '\u{0B}'
    ||| c == '\u{0C}'
    ||| c == '\u{85}'
    ||| c == '\u{A0}'
    ||| c == '\u{1680}'
    ||| (0x2000 <= c as u32 && c as u32 <= 0x200A)
    ||| c == '\u{2028}'
    ||| c == '\u{2029}'
    ||| c == '\u{202F}'
    ||| c == '\u{205F}'
    ||| c == '\u{3000}'
}

/// Whether `c` is a Unicode whitespace character.
pub fn is_whitespace_char(c: char) -> (r: bool)
    ensures
        r == spec_is_whitespace(c),
{
    c == ' ' || c == '\t' || c == '\n' || c == '\r' || c == '\u{0B}' || c == '\u{0C}' || c
        == '\u{85}' || c == '\u{A0}' || c == '\u{1680}' || (' ' <= c && {
        let u = c as u32;
        0x2000 <= u && u <= 0x200A
    }) || c == '\u{2028}' || c == '\u{2029}' || c == '\u{202F}' || c == '\u{205F}' || c
        == '\u{3000}'
}

/// `s` with leading whitespace removed.
pub open spec fn spec_trim_start(s: Seq<char>) -> Seq<char>
    decreases s.len(),
{
    if s.len() > 0 && spec_is_whitespace(s[0]) {
        spec_trim_start(s.drop_first())
    } else {
        s
    }
}

/// `s` with trailing whitespace removed.
pub open spec fn spec_trim_end(s: Seq<char>) -> Seq<char>
    decreases s.len(),
{
    if s.len() > 0 && spec_is_whitespace(s.last()) {
        spec_trim_end(s.drop_last())
    } else {
        s
    }
}

/// `s` with leading and trailing whitespace removed, as `str::trim`.
pub open spec fn spec_trim(s: Seq<char>) -> Seq<char> {
    spec_trim_end(spec_trim_start(s))
}

proof fn lemma_trim_start_prefix(s: Seq<char>, i: int)
    requires
        0 <= i <= s.len(),
        forall|j: int| 0 <= j < i ==> spec_is_whitespace(s[j]),
        i == s.len() || !spec_is_whitespace(s[i]),
    ensures
        spec_trim_start(s) == s.subrange(i, s.len() as int),
    decreases i,
{
    if i == 0 {
        assert(s.subrange(0, s.len() as int) =~= s);
    } else {
        lemma_trim_start_prefix(s.drop_first(), i - 1);
        assert(s.drop_first().subrange(i - 1, s.drop_first().len() as int) =~= s.subrange(
            i,
            s.len() as int,
        ));
    }
}

proof fn lemma_trim_end_suffix(s: Seq<char>, e: int)
    requires
        0 <= e <= s.len(),
        forall|j: int| e <= j < s.len() ==> spec_is_whitespace(s[j]),
        e == 0 || !spec_is_whitespace(s[e - 1]),
    ensures
        spec_trim_end(s) == s.subrange(0, e),
    decreases s.len() - e,
{
    if e == s.len() {
        if s.len() > 0 && spec_is_whitespace(s.last()) {
            assert(false);
        }
        assert(s.subrange(0, e) =~= s);
    } else {
        lemma_trim_end_suffix(s.drop_last(), e);
        assert(s.drop_last().subrange(0, e) =~= s.subrange(0, e));
    }
}

/// `s` without leading and trailing whitespace.
pub fn trim_str(s: &str) -> (r: &str)
    ensures
        r@ == spec_trim(s@),
{
    let n = s.unicode_len();
    let mut start: usize = 0;
    while start < n && is_whitespace_char(s.get_char(start))
        invariant
            0 <= start <= n,
            n == s@.len(),
            forall|j: int| 0 <= j < start ==> spec_is_whitespace(s@[j]),
        decreases n - start,
    {
        start += 1;
    }
    let mut end: usize = n;
    while end > start && is_whitespace_char(s.get_char(end - 1))
        invariant
            start <= end <= n,
            n == s@.len(),
            forall|j: int| end <= j < n ==> spec_is_whitespace(s@[j]),
        decreases end,
    {
        end -= 1;
    }
    proof {
        lemma_trim_start_prefix(s@, start as int);
        let t = s@.subrange(start as int, n as int);
        assert(forall|j: int|
            end - start <= j < t.len() ==> spec_is_whitespace(#[trigger] t[j]));
        lemma_trim_end_suffix(t, end - start);
        assert(t.subrange(0, end - start) =~= s@.subrange(start as int, end as int));
    }
    s.substring_char(start, end)
}

/// ASCII case folding of one character: `'A'` through `'Z'` map to their
/// lower-case forms, every other character is unchanged.
pub open spec fn spec_lower_char(c: char) -> char {
    if c == 'A' {
        'a'
    } else if c == 'B' {
        'b'
    } else if c == 'C' {
        'c'
    } else if c == 'D' {
        'd'
    } else if c == 'E' {
        'e'
    } else if c == 'F' {
        'f'
    } else if c == 'G' {
        'g'
    } else if c == 'H' {
        'h'
    } else if c == 'I' {
        'i'
    } else if c == 'J' {
        'j'
    } else if c == 'K' {
        'k'
    } else if c == 'L' {
        'l'
    } else if c == 'M' {
        'm'
    } else if c == 'N' {
        'n'
    } else if c == 'O' {
        'o'
    } else if c == 'P' {
        'p'
    } else if c == 'Q' {
        'q'
    } else if c == 'R' {
        'r'
    } else if c == 'S' {
        's'
    } else if c == 'T' {
        't'
    } else if c == 'U' {
        'u'
    } else if c == 'V' {
        'v'
    } else if c == 'W' {
        'w'
    } else if c == 'X' {
        'x'
    } else if c == 'Y' {
        'y'
    } else if c == 'Z' {
        'z'
    } else {
        c
    }
}

/// ASCII case folding of one character.
pub fn lower_char(c: char) -> (r: char)
    ensures
        r == spec_lower_char(c),
{
    match c {
        'A' => 'a',
        'B' => 'b',
        'C' => 'c',
        'D' => 'd',
        'E' => 'e',
        'F' => 'f',
        'G' => 'g',
        'H' => 'h',
        'I' => 'i',
        'J' => 'j',
        'K' => 'k',
        'L' => 'l',
        'M' => 'm',
        'N' => 'n',
        'O' => 'o',
        'P' => 'p',
        'Q' => 'q',
        'R' => 'r',
        'S' => 's',
        'T' => 't',
        'U' => 'u',
        'V' => 'v',
        'W' => 'w',
        'X' => 'x',
        'Y' => 'y',
        'Z' => 'z',
        _ => c,
    }
}

/// ASCII case folding of a whole character sequence.
pub open spec fn spec_lower(s: Seq<char>) -> Seq<char> {
    s.map_values(|c: char| spec_lower_char(c))
}

/// Whether the characters of `n` occur in `s` starting at position `i`.
pub open spec fn spec_match_at(s: Seq<char>, n: Seq<char>, i: int) -> bool {
    &&& 0 <= i
    &&& i + n.len() <= s.len()
    &&& forall|j: int| 0 <= j < n.len() ==> s[i + j] == n[j]
}

/// Whether `n` occurs as a contiguous subsequence of `s`.
pub open spec fn spec_contains_seq(s: Seq<char>, n: Seq<char>) -> bool {
    exists|i: int| spec_match_at(s, n, i)
}

/// Like `spec_match_at`, after ASCII case folding of both sides.
pub open spec fn spec_match_at_ci(s: Seq<char>, n: Seq<char>, i: int) -> bool {
    &&& 0 <= i
    &&& i + n.len() <= s.len()
    &&& forall|j: int| 0 <= j < n.len() ==> spec_lower_char(s[i + j]) == spec_lower_char(n[j])
}

/// Whether `n` occurs in `s`, ignoring ASCII case.
pub open spec fn spec_contains_ci(s: Seq<char>, n: Seq<char>) -> bool {
    exists|i: int| spec_match_at_ci(s, n, i)
}

/// Whether the characters of `n` occur in `s` starting at position `i`.
pub fn str_match_at(s: &str, n: &str, i: usize, s_len: usize, n_len: usize) -> (r: bool)
    requires
        s_len == s@.len(),
        n_len == n@.len(),
        i + n_len <= s_len,
    ensures
        r == spec_match_at(s@, n@, i as int),
{
    let mut j: usize = 0;
    while j < n_len
        invariant
            0 <= j <= n_len,
            s_len == s@.len(),
            n_len == n@.len(),
            i + n_len <= s_len,
            forall|k: int| 0 <= k < j ==> s@[i + k] == n@[k],
        decreases n_len - j,
    {
        if s.get_char(i + j) != n.get_char(j) {
            return false;
        }
        j += 1;
    }
    true
}

/// Whether `n` occurs as a contiguous substring of `s`.
pub fn str_contains(s: &str, n: &str) -> (r: bool)
    ensures
        r == spec_contains_seq(s@, n@),
{
    let s_len = s.unicode_len();
    let n_len = n.unicode_len();
    if n_len > s_len {
        return false;
    }
    let mut i: usize = 0;
    while i <= s_len - n_len
        invariant
            n_len <= s_len,
            s_len == s@.len(),
            n_len == n@.len(),
            0 <= i <= s_len - n_len + 1,
            forall|k: int| 0 <= k < i ==> !spec_match_at(s@, n@, k),
        decreases s_len + 1 - i,
    {
        if str_match_at(s, n, i, s_len, n_len) {
            return true;
        }
        i += 1;
    }
    assert forall|k: int| !spec_match_at(s@, n@, k) by {
        if 0 <= k < i {
        }
    }
    false
}

/// Whether the characters of `n` occur in `s` at position `i`, ignoring ASCII case.
pub fn str_match_at_ci(s: &str, n: &str, i: usize, s_len: usize, n_len: usize) -> (r: bool)
    requires
        s_len == s@.len(),
        n_len == n@.len(),
        i + n_len <= s_len,
    ensures
        r == spec_match_at_ci(s@, n@, i as int),
{
    let mut j: usize = 0;
    while j < n_len
        invariant
            0 <= j <= n_len,
            s_len == s@.len(),
            n_len == n@.len(),
            i + n_len <= s_len,
            forall|k: int|
                0 <= k < j ==> spec_lower_char(s@[i + k]) == spec_lower_char(n@[k]),
        decreases n_len - j,
    {
        if lower_char(s.get_char(i + j)) != lower_char(n.get_char(j)) {
            return false;
        }
        j += 1;
    }
    true
}

/// Whether `n` occurs in `s`, ignoring ASCII case.
pub fn str_contains_ci(s: &str, n: &str) -> (r: bool)
    ensures
        r == spec_contains_ci(s@, n@),
{
    let s_len = s.unicode_len();
    let n_len = n.unicode_len();
    if n_len > s_len {
        return false;
    }
    let mut i: usize = 0;
    while i <= s_len - n_len
        invariant
            n_len <= s_len,
            s_len == s@.len(),
            n_len == n@.len(),
            0 <= i <= s_len - n_len + 1,
            forall|k: int| 0 <= k < i ==> !spec_match_at_ci(s@, n@, k),
        decreases s_len + 1 - i,
    {
        if str_match_at_ci(s, n, i, s_len, n_len) {
            return true;
        }
        i += 1;
    }
    assert forall|k: int| !spec_match_at_ci(s@, n@, k) by {
        if 0 <= k < i {
        }
    }
    false
}

/// Whether `s` begins with `prefix`.
pub open spec fn spec_starts_with(s: Seq<char>, prefix: Seq<char>) -> bool {
    spec_match_at(s, prefix, 0)
}

/// Whether `s` begins with `prefix`.
pub fn str_starts_with(s: &str, prefix: &str) -> (r: bool)
    ensures
        r == spec_starts_with(s@, prefix@),
{
    let s_len = s.unicode_len();
    let p_len = prefix.unicode_len();
    if p_len > s_len {
        return false;
    }
    str_match_at(s, prefix, 0, s_len, p_len)
}

/// Whether `s` and `t` hold the same characters.
pub fn str_eq(s: &str, t: &str) -> (r: bool)
    ensures
        r == (s@ == t@),
{
    let s_len = s.unicode_len();
    let t_len = t.unicode_len();
    if s_len != t_len {
        return false;
    }
    let mut i: usize = 0;
    while i < s_len
        invariant
            0 <= i <= s_len,
            s_len == s@.len(),
            s_len == t@.len(),
            forall|k: int| 0 <= k < i ==> s@[k] == t@[k],
        decreases s_len - i,
    {
        if s.get_char(i) != t.get_char(i) {
            return false;
        }
        i += 1;
    }
    proof {
        assert(s@ =~= t@);
    }
    true
}

/// Whether `s` and `t` are equal after ASCII case folding.
pub fn str_eq_ci(s: &str, t: &str) -> (r: bool)
    ensures
        r == (spec_lower(s@) == spec_lower(t@)),
{
    let s_len = s.unicode_len();
    let t_len = t.unicode_len();
    if s_len != t_len {
        proof {
            assert(spec_lower(s@).len() != spec_lower(t@).len());
        }
        return false;
    }
    let mut i: usize = 0;
    while i < s_len
        invariant
            0 <= i <= s_len,
            s_len == s@.len(),
            s_len == t@.len(),
            forall|k: int| 0 <= k < i ==> spec_lower_char(s@[k]) == spec_lower_char(t@[k]),
        decreases s_len - i,
    {
        if lower_char(s.get_char(i)) != lower_char(t.get_char(i)) {
            proof {
                assert(spec_lower(s@)[i as int] != spec_lower(t@)[i as int]);
            }
            return false;
        }
        i += 1;
    }
    proof {
        assert(spec_lower(s@) =~= spec_lower(t@));
    }
    true
}

/// The character sequence of an optional borrowed string.
pub open spec fn opt_str_view(v: Option<&str>) -> Option<Seq<char>> {
    match v {
        Option::None => Option::None,
        Option::Some(s) => Option::Some(s@),
    }
}

/// The character sequence of an optional owned string.
pub open spec fn opt_string_view(v: Option<String>) -> Option<Seq<char>> {
    match v {
        Option::None => Option::None,
        Option::Some(s) => Option::Some(s@),
    }
}

/// The position of the first occurrence of `c` in `s` at or after `i`
/// (the length of `s` when there is none).
pub open spec fn spec_find_char(s: Seq<char>, i: int, c: char) -> int
    decreases s.len() - i,
{
    if i < 0 || i >= s.len() {
        s.len() as int
    } else if s[i] == c {
        i
    } else {
        spec_find_char(s, i + 1, c)
    }
}

/// Characterization of `spec_find_char` from a scan: if nothing before
/// `j` is `c` and `j` is `c` or the end, the first occurrence is `j`.
pub proof fn lemma_find_char_at(s: Seq<char>, c: char, j: int)
    requires
        0 <= j <= s.len(),
        forall|k: int| 0 <= k < j ==> s[k] != c,
        j == s.len() || s[j] == c,
    ensures
        spec_find_char(s, 0, c) == j,
{
    lemma_find_char_bounds(s, 0, c);
    let f = spec_find_char(s, 0, c);
    if f < j {
        assert(s[f] == c);
    }
    if j < f {
        assert(s[j] != c);
    }
}

/// Bounds of `spec_find_char`: the result lies between `i` and the
/// length, points at `c` when inside, and nothing before it is `c`.
pub proof fn lemma_find_char_bounds(s: Seq<char>, i: int, c: char)
    requires
        0 <= i <= s.len(),
    ensures
        i <= spec_find_char(s, i, c) <= s.len(),
        spec_find_char(s, i, c) < s.len() ==> s[spec_find_char(s, i, c)] == c,
        forall|j: int| i <= j < spec_find_char(s, i, c) ==> s[j] != c,
    decreases s.len() - i,
{
    if i < s.len() && s[i] != c {
        lemma_find_char_bounds(s, i + 1, c);
    }
}

/// The position of the last occurrence of `c` in `s`, or `-1` when
/// there is none.
pub open spec fn spec_last_char(s: Seq<char>, c: char) -> int
    decreases s.len(),
{
    if s.len() == 0 {
        -1
    } else if s.last() == c {
        s.len() - 1
    } else {
        spec_last_char(s.drop_last(), c)
    }
}

/// Characterization of `spec_last_char` from a backwards scan.
pub proof fn lemma_last_char_at(s: Seq<char>, c: char, j: int)
    requires
        -1 <= j < s.len(),
        forall|k: int| j < k < s.len() ==> s[k] != c,
        j == -1 || s[j] == c,
    ensures
        spec_last_char(s, c) == j,
    decreases s.len(),
{
    if s.len() > 0 {
        if s.last() == c {
        } else {
            assert(j < s.len() - 1);
            lemma_last_char_at(s.drop_last(), c, j);
        }
    }
}

/// `s` with every ASCII letter folded to lower case.
pub fn lower_string(s: &str) -> (r: String)
    ensures
        r@ == spec_lower(s@),
{
    let n = s.unicode_len();
    let mut out = String::new();
    let mut i: usize = 0;
    while i < n
        invariant
            0 <= i <= n,
            n == s@.len(),
            out@ == spec_lower(s@.subrange(0, i as int)),
        decreases n - i,
    {
        let ghost out_pre = out@;
        push_char(&mut out, lower_char(s.get_char(i)));
        proof {
            assert(out@ =~= spec_lower(s@.subrange(0, i as int + 1)));
        }
        i += 1;
    }
    proof {
        assert(s@.subrange(0, n as int) =~= s@);
    }
    out
}

/// Relies on `String::push`: appends exactly the given character to the
/// end of the string.
#[verifier::external_body]
pub fn push_char(s: &mut String, c: char)
    ensures
        final(s)@ == old(s)@.push(c),
{
    s.push(c);
}

} // verus!
