//! Version handling for the updater: normalizing release tags, reading
//! dotted numeric versions, and comparing them component-wise.

use vstd::prelude::*;

use crate::text;

verus! {

/// `s` with every leading `'v'` removed.
pub open spec fn spec_strip_leading_v(s: Seq<char>) -> Seq<char>
    decreases s.len(),
{
    if s.len() > 0 && s[0] == 'v' {
        spec_strip_leading_v(s.drop_first())
    } else {
        s
    }
}

/// A version string after trimming and removal of leading `'v'` markers.
pub open spec fn spec_normalize_version(s: Seq<char>) -> Seq<char> {
    spec_strip_leading_v(text::spec_trim(s))
}

proof fn lemma_strip_v_prefix(s: Seq<char>, i: int)
    requires
        0 <= i <= s.len(),
        forall|j: int| 0 <= j < i ==> s[j] == 'v',
        i == s.len() || s[i] != 'v',
    ensures
        spec_strip_leading_v(s) == s.subrange(i, s.len() as int),
    decreases i,
{
    if i == 0 {
        assert(s.subrange(0, s.len() as int) =~= s);
    } else {
        lemma_strip_v_prefix(s.drop_first(), i - 1);
        assert(s.drop_first().subrange(i - 1, s.drop_first().len() as int) =~= s.subrange(
            i,
            s.len() as int,
        ));
    }
}

/// Normalizes a version string: trims whitespace and strips leading
/// `'v'` markers, so `"v1.2.3"` and `" 1.2.3 "` read the same.
pub fn normalize_version(version: &str) -> (r: String)
    ensures
        r@ == spec_normalize_version(version@),
{
    let t = text::trim_str(version);
    let n = t.unicode_len();
    let mut i: usize = 0;
    while i < n && t.get_char(i) == 'v'
        invariant
            0 <= i <= n,
            n == t@.len(),
            forall|j: int| 0 <= j < i ==> t@[j] == 'v',
        decreases n - i,
    {
        i += 1;
    }
    proof {
        lemma_strip_v_prefix(t@, i as int);
    }
    t.substring_char(i, n).to_owned()
}

/// Whether `c` is a decimal digit.
pub open spec fn spec_is_digit(c: char) -> bool {
    48 <= c as u32 && c as u32 <= 57
}

/// The numeric value a digit contributes (zero for other characters).
pub open spec fn spec_digit_value(c: char) -> nat {
    if spec_is_digit(c) {
        (c as u32 - 48) as nat
    } else {
        0
    }
}

/// The number a digit string denotes, most significant digit first.
pub open spec fn spec_digits_value(s: Seq<char>) -> nat
    decreases s.len(),
{
    if s.len() == 0 {
        0
    } else {
        spec_digits_value(s.drop_last()) * 10 + spec_digit_value(s.last())
    }
}

/// The unsigned reading of one version segment: defined exactly on a
/// nonempty all-digit string whose value fits in 64 bits.
pub open spec fn spec_parse_u64(s: Seq<char>) -> Option<u64> {
    if s.len() > 0 && (forall|i: int| 0 <= i < s.len() ==> spec_is_digit(s[i]))
        && spec_digits_value(s) <= u64::MAX {
        Some(spec_digits_value(s) as u64)
    } else {
        Option::None
    }
}

proof fn lemma_digits_value_mono(s: Seq<char>, i: int)
    requires
        0 <= i <= s.len(),
    ensures
        spec_digits_value(s.subrange(0, i)) <= spec_digits_value(s),
    decreases s.len() - i,
{
    if i == s.len() {
        assert(s.subrange(0, i) =~= s);
    } else {
        assert(s.subrange(0, i + 1).drop_last() =~= s.subrange(0, i));
        assert(spec_digits_value(s.subrange(0, i + 1)) == spec_digits_value(
            s.subrange(0, i),
        ) * 10 + spec_digit_value(s[i]));
        lemma_digits_value_mono(s, i + 1);
    }
}

fn parse_u64_str(s: &str) -> (r: Option<u64>)
    ensures
        r == spec_parse_u64(s@),
{
    let n = s.unicode_len();
    if n == 0 {
        return Option::None;
    }
    let mut acc: u64 = 0;
    let mut i: usize = 0;
    while i < n
        invariant
            0 <= i <= n,
            n == s@.len(),
            forall|j: int| 0 <= j < i ==> spec_is_digit(s@[j]),
            acc == spec_digits_value(s@.subrange(0, i as int)),
        decreases n - i,
    {
        let c = s.get_char(i);
        let u = c as u32;
        if u < 48 || u > 57 {
            assert(!spec_is_digit(s@[i as int]));
            return Option::None;
        }
        let d = (u - 48) as u64;
        proof {
            assert(s@.subrange(0, i as int + 1).drop_last() =~= s@.subrange(0, i as int));
        }
        let step = match acc.checked_mul(10) {
            Some(x) => x.checked_add(d),
            Option::None => Option::None,
        };
        match step {
            Some(next) => {
                acc = next;
            },
            Option::None => {
                proof {
                    assert(spec_digits_value(s@.subrange(0, i as int + 1)) > u64::MAX);
                    lemma_digits_value_mono(s@, i as int + 1);
                }
                return Option::None;
            },
        }
        i += 1;
    }
    proof {
        assert(s@.subrange(0, n as int) =~= s@);
    }
    Some(acc)
}

/// The position of the first `'.'` in `s` at or after `i` (the length
/// of `s` when there is none).
pub open spec fn spec_next_dot(s: Seq<char>, i: int) -> int
    decreases s.len() - i,
{
    if i < 0 || i >= s.len() {
        s.len() as int
    } else if s[i] == '.' {
        i
    } else {
        spec_next_dot(s, i + 1)
    }
}

proof fn lemma_next_dot_bounds(s: Seq<char>, i: int)
    requires
        0 <= i <= s.len(),
    ensures
        i <= spec_next_dot(s, i) <= s.len(),
        spec_next_dot(s, i) < s.len() ==> s[spec_next_dot(s, i)] == '.',
        forall|j: int| i <= j < spec_next_dot(s, i) ==> s[j] != '.',
    decreases s.len() - i,
{
    if i < s.len() && s[i] != '.' {
        lemma_next_dot_bounds(s, i + 1);
    }
}

/// The numbers read from the `'.'`-separated segments of `s` starting
/// at position `i`: every segment must be a nonempty digit string whose
/// value fits in 64 bits, or the whole reading fails.
pub open spec fn spec_parse_parts_from(s: Seq<char>, i: int) -> Option<Seq<u64>>
    decreases s.len() - i,
    when 0 <= i <= s.len()
    via spec_parse_parts_from_decreases
{
    let j = spec_next_dot(s, i);
    let seg = s.subrange(i, j);
    match spec_parse_u64(seg) {
        Option::None => Option::None,
        Some(v) => {
            if j == s.len() {
                Some(seq![v])
            } else if j + 1 > s.len() {
                Option::None
            } else {
                match spec_parse_parts_from(s, j + 1) {
                    Option::None => Option::None,
                    Some(rest) => Some(seq![v] + rest),
                }
            }
        },
    }
}

#[via_fn]
proof fn spec_parse_parts_from_decreases(s: Seq<char>, i: int) {
    lemma_next_dot_bounds(s, i);
}

/// The dotted-number reading of a whole version core.
pub open spec fn spec_parse_parts(s: Seq<char>) -> Option<Seq<u64>> {
    spec_parse_parts_from(s, 0)
}

/// The position of the first `'-'` or `'+'` in `s` at or after `i` (the
/// length of `s` when there is none): where the release or build
/// metadata suffix of a version begins.
pub open spec fn spec_next_sep(s: Seq<char>, i: int) -> int
    decreases s.len() - i,
{
    if i < 0 || i >= s.len() {
        s.len() as int
    } else if s[i] == '-' || s[i] == '+' {
        i
    } else {
        spec_next_sep(s, i + 1)
    }
}

/// The core of a normalized version string: everything before the first
/// `'-'` or `'+'`, trimmed again.
pub open spec fn spec_semver_core(s: Seq<char>) -> Seq<char> {
    let n = spec_normalize_version(s);
    text::spec_trim(n.subrange(0, spec_next_sep(n, 0)))
}

/// What `parse_semver_parts` yields: nothing when the core is empty or
/// any segment fails to read, the segment numbers otherwise.
pub open spec fn spec_semver_parts(s: Seq<char>) -> Option<Seq<u64>> {
    let core = spec_semver_core(s);
    if core.len() == 0 {
        Option::None
    } else {
        spec_parse_parts(core)
    }
}

proof fn lemma_next_sep_bounds(s: Seq<char>, i: int)
    requires
        0 <= i <= s.len(),
    ensures
        i <= spec_next_sep(s, i) <= s.len(),
        spec_next_sep(s, i) < s.len() ==> (s[spec_next_sep(s, i)] == '-' || s[spec_next_sep(
            s,
            i,
        )] == '+'),
        forall|j: int| i <= j < spec_next_sep(s, i) ==> (s[j] != '-' && s[j] != '+'),
    decreases s.len() - i,
{
    if i < s.len() && s[i] != '-' && s[i] != '+' {
        lemma_next_sep_bounds(s, i + 1);
    }
}

proof fn lemma_next_sep_at(s: Seq<char>, cut: int)
    requires
        0 <= cut <= s.len(),
        forall|j: int| 0 <= j < cut ==> (s[j] != '-' && s[j] != '+'),
        cut == s.len() || s[cut] == '-' || s[cut] == '+',
    ensures
        spec_next_sep(s, 0) == cut,
{
    lemma_next_sep_bounds(s, 0);
    let k = spec_next_sep(s, 0);
    if k < cut {
        assert(s[k] == '-' || s[k] == '+');
    }
    if cut < k {
        assert(s[cut] != '-' && s[cut] != '+');
    }
}

proof fn lemma_next_dot_at(s: Seq<char>, from: int, j: int)
    requires
        0 <= from <= j <= s.len(),
        forall|k: int| from <= k < j ==> s[k] != '.',
        j == s.len() || s[j] == '.',
    ensures
        spec_next_dot(s, from) == j,
{
    lemma_next_dot_bounds(s, from);
    let k = spec_next_dot(s, from);
    if k < j {
        assert(s[k] == '.');
    }
    if j < k {
        assert(s[j] != '.');
    }
}

/// Reads the numeric components of a version: the normalized string is
/// cut before any `'-'` or `'+'` suffix, trimmed, and its
/// `'.'`-separated segments are read as numbers. Yields nothing when
/// the core is empty or any segment is not a plain number.
pub fn parse_semver_parts(version: &str) -> (r: Option<Vec<u64>>)
    ensures
        r is Some <==> spec_semver_parts(version@) is Some,
        (r matches Some(parts) ==> spec_semver_parts(version@) == Some(parts@)),
{
    let normalized = normalize_version(version);
    let norm = normalized.as_str();
    let n = norm.unicode_len();
    let mut cut: usize = 0;
    while cut < n && norm.get_char(cut) != '-' && norm.get_char(cut) != '+'
        invariant
            0 <= cut <= n,
            n == norm@.len(),
            forall|j: int| 0 <= j < cut ==> (norm@[j] != '-' && norm@[j] != '+'),
        decreases n - cut,
    {
        cut += 1;
    }
    proof {
        lemma_next_sep_at(norm@, cut as int);
        assert(norm@.subrange(0, cut as int) == norm@.subrange(0, spec_next_sep(norm@, 0)));
    }
    let prefix = norm.substring_char(0, cut);
    let core = text::trim_str(prefix);
    let m = core.unicode_len();
    if m == 0 {
        return Option::None;
    }
    let ghost c = core@;
    proof {
        assert(c == spec_semver_core(version@));
    }
    let mut parts: Vec<u64> = Vec::new();
    let mut seg_start: usize = 0;
    while seg_start <= m
        invariant
            0 <= seg_start <= m,
            m == c.len(),
            m > 0,
            core@ == c,
            c == spec_semver_core(version@),
            spec_semver_parts(version@) == spec_parse_parts(c),
            (match spec_parse_parts_from(c, seg_start as int) {
                Some(rest) => spec_parse_parts(c) == Some(parts@ + rest),
                Option::None => spec_parse_parts(c) is None,
            }),
        decreases m - seg_start,
    {
        let mut j: usize = seg_start;
        while j < m && core.get_char(j) != '.'
            invariant
                seg_start <= j <= m,
                m == core@.len(),
                forall|k: int| seg_start <= k < j ==> core@[k] != '.',
            decreases m - j,
        {
            j += 1;
        }
        proof {
            lemma_next_dot_at(c, seg_start as int, j as int);
        }
        let seg = core.substring_char(seg_start, j);
        let ghost parts_pre = parts@;
        match parse_u64_str(seg) {
            Some(v) => {
                parts.push(v);
                proof {
                    assert(spec_parse_u64(c.subrange(seg_start as int, j as int)) == Some(
                        v,
                    ));
                    assert(parts@ =~= parts_pre + seq![v]);
                }
            },
            Option::None => {
                proof {
                    assert(spec_parse_parts_from(c, seg_start as int) is None);
                }
                return Option::None;
            },
        }
        if j == m {
            proof {
                assert(spec_parse_parts_from(c, seg_start as int) == Some(
                    seq![parts@.last()],
                ));
                assert(parts_pre + seq![parts@.last()] =~= parts@);
            }
            return Some(parts);
        }
        proof {
            let v = parts@.last();
            match spec_parse_parts_from(c, j as int + 1) {
                Some(rest) => {
                    assert(spec_parse_parts_from(c, seg_start as int) == Some(
                        seq![v] + rest,
                    ));
                    assert(parts_pre + (seq![v] + rest) =~= parts@ + rest);
                },
                Option::None => {
                    assert(spec_parse_parts_from(c, seg_start as int) is None);
                },
            }
        }
        seg_start = j + 1;
    }
    proof {
        assert(false);
    }
    Option::None
}

/// Component-wise comparison of two version part lists from position
/// `i` on, with missing components read as zero.
pub open spec fn spec_cmp_parts_from(a: Seq<u64>, b: Seq<u64>, i: int) -> core::cmp::Ordering
    decreases (if a.len() > b.len() {
        a.len() as int
    } else {
        b.len() as int
    }) - i,
    when i >= 0
{
    if i >= a.len() && i >= b.len() {
        core::cmp::Ordering::Equal
    } else {
        let x: u64 = if i < a.len() {
            a[i]
        } else {
            0
        };
        let y: u64 = if i < b.len() {
            b[i]
        } else {
            0
        };
        if x < y {
            core::cmp::Ordering::Less
        } else if x > y {
            core::cmp::Ordering::Greater
        } else {
            spec_cmp_parts_from(a, b, i + 1)
        }
    }
}

/// Component-wise comparison of two version part lists, with missing
/// components read as zero.
pub open spec fn spec_cmp_parts(a: Seq<u64>, b: Seq<u64>) -> core::cmp::Ordering {
    spec_cmp_parts_from(a, b, 0)
}

/// The ordering of two version strings, when both can be read: their
/// numeric components compared left to right, shorter versions padded
/// with zeros.
pub fn compare_versions(left: &str, right: &str) -> (r: Option<core::cmp::Ordering>)
    ensures
        r is Some <==> (spec_semver_parts(left@) is Some && spec_semver_parts(
            right@,
        ) is Some),
        (r matches Some(o) ==> o == spec_cmp_parts(
            spec_semver_parts(left@)->0,
            spec_semver_parts(right@)->0,
        )),
{
    let left_parts = match parse_semver_parts(left) {
        Some(p) => p,
        Option::None => {
            return Option::None;
        },
    };
    let right_parts = match parse_semver_parts(right) {
        Some(p) => p,
        Option::None => {
            return Option::None;
        },
    };
    let a_len = left_parts.len();
    let b_len = right_parts.len();
    let max = if a_len > b_len {
        a_len
    } else {
        b_len
    };
    let ghost ga = left_parts@;
    let ghost gb = right_parts@;
    let mut i: usize = 0;
    while i < max
        invariant
            0 <= i <= max,
            a_len == ga.len(),
            b_len == gb.len(),
            max == (if ga.len() > gb.len() {
                ga.len()
            } else {
                gb.len()
            }),
            left_parts@ == ga,
            right_parts@ == gb,
            spec_semver_parts(left@) == Some(ga),
            spec_semver_parts(right@) == Some(gb),
            spec_cmp_parts(ga, gb) == spec_cmp_parts_from(ga, gb, i as int),
        decreases max - i,
    {
        let x: u64 = if i < a_len {
            left_parts[i]
        } else {
            0
        };
        let y: u64 = if i < b_len {
            right_parts[i]
        } else {
            0
        };
        if x < y {
            return Some(core::cmp::Ordering::Less);
        }
        if x > y {
            return Some(core::cmp::Ordering::Greater);
        }
        i += 1;
    }
    Some(core::cmp::Ordering::Equal)
}

/// Whether `candidate` names a strictly newer version than `current`:
/// true exactly when both versions can be read and the comparison says
/// greater.
pub fn is_newer_version(candidate: &str, current: &str) -> (r: bool)
    ensures
        r == (spec_semver_parts(candidate@) is Some && spec_semver_parts(current@) is Some
            && spec_cmp_parts(spec_semver_parts(candidate@)->0, spec_semver_parts(current@)->0)
            == core::cmp::Ordering::Greater),
{
    match compare_versions(candidate, current) {
        Some(core::cmp::Ordering::Greater) => true,
        _ => false,
    }
}

} // verus!
