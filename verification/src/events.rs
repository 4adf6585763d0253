//! The outward-facing key event record: for every observed raw event,
//! regardless of the suppression outcome, the UI layer is sent a
//! `GlobalKeyEvent` with the logical code, sanitized decoded text,
//! modifier flags, repeat flag and timestamp.

use vstd::prelude::*;

use crate::keys;
use crate::keys::KeyId;
use crate::keyset::KeySet;
use crate::session;
use crate::session::KeyPhase;

verus! {

/// The UI-facing record of one observed key event.
pub struct GlobalKeyEvent {
    pub code: String,
    pub text: Option<String>,
    pub phase: KeyPhase,
    pub ctrl: bool,
    pub shift: bool,
    pub caps: bool,
    pub alt: bool,
    pub meta: bool,
    pub repeat: bool,
    pub timestamp_ms: i64,
}

/// A Unicode control character (the Cc category).
pub open spec fn spec_is_control(c: char) -> bool {
    (c as u32) < 0x20 || (0x7F <= c as u32 && c as u32 <= 0x9F)
}

/// Whether `c` is a control character.
pub fn is_control_char(c: char) -> (r: bool)
    ensures
        r == spec_is_control(c),
{
    let u = c as u32;
    u < 0x20 || (0x7F <= u && u <= 0x9F)
}

/// `s` with every carriage return removed.
pub open spec fn spec_strip_cr(s: Seq<char>) -> Seq<char> {
    s.filter(|c: char| c != '\r')
}

/// The sanitized decoded text of an event: absent text and empty text
/// yield nothing; carriage returns are stripped; text that is empty
/// after stripping, or still holds a control character, yields nothing.
pub open spec fn spec_sanitize_text(v: Option<Seq<char>>) -> Option<Seq<char>> {
    match v {
        Option::None => Option::None,
        Option::Some(raw) => {
            if raw.len() == 0 {
                Option::None
            } else {
                let norm = spec_strip_cr(raw);
                if norm.len() == 0 {
                    Option::None
                } else if exists|i: int| 0 <= i < norm.len() && spec_is_control(norm[i]) {
                    Option::None
                } else {
                    Option::Some(norm)
                }
            }
        },
    }
}

pub use crate::text::opt_str_view;
pub use crate::text::opt_string_view;

/// Sanitizes the decoded text attached to a raw key event.
pub fn sanitize_event_text(value: Option<&str>) -> (r: Option<String>)
    ensures
        opt_string_view(r) == spec_sanitize_text(opt_str_view(value)),
{
    let s = match value {
        Some(s) => s,
        Option::None => {
            return Option::None;
        },
    };
    let n = s.unicode_len();
    if n == 0 {
        return Option::None;
    }
    let mut out = String::new();
    let mut i: usize = 0;
    while i < n
        invariant
            0 <= i <= n,
            n == s@.len(),
            out@ == spec_strip_cr(s@.subrange(0, i as int)),
        decreases n - i,
    {
        let ghost pre = s@.subrange(0, i as int);
        let ghost out_pre = out@;
        let c = s.get_char(i);
        if c != '\r' {
            crate::text::push_char(&mut out, c);
        }
        proof {
            reveal(Seq::filter);
            let post = s@.subrange(0, i as int + 1);
            assert(post.drop_last() =~= pre);
            assert(post.last() == c);
        }
        i += 1;
    }
    proof {
        assert(s@.subrange(0, n as int) =~= s@);
    }
    let m = out.as_str().unicode_len();
    if m == 0 {
        return Option::None;
    }
    let mut j: usize = 0;
    while j < m
        invariant
            0 <= j <= m,
            m == out@.len(),
            value == Some(s),
            s@.len() > 0,
            out@ == spec_strip_cr(s@),
            forall|k: int| 0 <= k < j ==> !spec_is_control(out@[k]),
        decreases m - j,
    {
        if is_control_char(out.as_str().get_char(j)) {
            proof {
                let norm = spec_strip_cr(s@);
                assert(0 <= j < norm.len() && spec_is_control(norm[j as int]));
            }
            return Option::None;
        }
        j += 1;
    }
    Some(out)
}

/// Relies on `std::time::SystemTime::now` and
/// `SystemTime::duration_since`: reads the wall clock as milliseconds
/// since the Unix epoch; yields nothing when the clock reads before the
/// epoch. The result depends on the clock, so nothing is promised of it.
#[verifier::external_body]
fn unix_millis_now() -> (r: Option<u128>) {
    std::time::SystemTime::now().duration_since(std::time::UNIX_EPOCH).ok().map(
        |d| d.as_millis(),
    )
}

/// The current wall-clock time in milliseconds since the Unix epoch:
/// zero when the clock reads before the epoch, saturated at the largest
/// value the event record carries. Whatever the clock reads, the
/// timestamp is never negative.
pub fn event_timestamp_ms() -> (r: i64)
    ensures
        r >= 0,
{
    match unix_millis_now() {
        Some(ms) => {
            if ms > i64::MAX as u128 {
                i64::MAX
            } else {
                ms as i64
            }
        },
        Option::None => 0,
    }
}

/// Builds the outward event record for one observed raw key event.
/// `down_keys` is the physical-down set after the event was applied;
/// `caps` is the platform's caps-lock toggle state.
pub fn build_global_key_event(
    key: KeyId,
    phase: KeyPhase,
    down_keys: &KeySet,
    repeat: bool,
    text: Option<&str>,
    caps: bool,
) -> (r: GlobalKeyEvent)
    ensures
        r.code@ == keys::spec_key_code(key),
        opt_string_view(r.text) == spec_sanitize_text(opt_str_view(text)),
        r.phase == phase,
        r.ctrl == (down_keys@.contains(KeyId::ControlLeft) || down_keys@.contains(
            KeyId::ControlRight,
        )),
        r.shift == (down_keys@.contains(KeyId::ShiftLeft) || down_keys@.contains(
            KeyId::ShiftRight,
        )),
        r.caps == caps,
        r.alt == session::spec_alt_down(down_keys@),
        r.meta == session::spec_meta_down(down_keys@),
        r.repeat == repeat,
        r.timestamp_ms >= 0,
{
    let ctrl = down_keys.contains(KeyId::ControlLeft) || down_keys.contains(
        KeyId::ControlRight,
    );
    let shift = down_keys.contains(KeyId::ShiftLeft) || down_keys.contains(
        KeyId::ShiftRight,
    );
    let alt = down_keys.contains(KeyId::Alt) || down_keys.contains(KeyId::AltGr);
    let meta = down_keys.contains(KeyId::MetaLeft) || down_keys.contains(KeyId::MetaRight);
    let timestamp_ms = event_timestamp_ms();
    GlobalKeyEvent {
        code: keys::key_to_code(key),
        text: sanitize_event_text(text),
        phase,
        ctrl,
        shift,
        caps,
        alt,
        meta,
        repeat,
        timestamp_ms,
    }
}

} // verus!
