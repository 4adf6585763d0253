//! Log-line reading for the session tracker: a game log line can
//! announce that a game was joined (carrying the session identifier) or
//! left; everything else is noise. A replay over a whole log file
//! recovers the current session, if any.

use vstd::prelude::*;

use crate::text;

verus! {

/// What one log line announces.
#[derive(PartialEq, Eq, Debug)]
pub enum LogLineEvent {
    /// A game was joined, with its session identifier.
    JoinedGame(String),
    /// The game was left.
    LeftGame,
    /// Nothing of interest.
    Unrelated,
}

/// A character a session identifier may hold: a lower-case hex digit or
/// a dash.
pub open spec fn spec_is_jobid_char(c: char) -> bool {
    ||| (97 <= c as u32 && c as u32 <= 102)
    ||| (48 <= c as u32 && c as u32 <= 57)
    ||| c == '-'
}

/// Whether `c` may appear in a session identifier.
pub fn is_jobid_char(c: char) -> (r: bool)
    ensures
        r == spec_is_jobid_char(c),
{
    let u = c as u32;
    (97 <= u && u <= 102) || (48 <= u && u <= 57) || c == '-'
}

/// The end of the run of identifier characters starting at `j`.
pub open spec fn spec_jobid_end(s: Seq<char>, j: int) -> int
    decreases s.len() - j,
{
    if j < 0 || j >= s.len() {
        s.len() as int
    } else if !spec_is_jobid_char(s[j]) {
        j
    } else {
        spec_jobid_end(s, j + 1)
    }
}

proof fn lemma_jobid_end_at(s: Seq<char>, from: int, j: int)
    requires
        0 <= from <= j <= s.len(),
        forall|k: int| from <= k < j ==> spec_is_jobid_char(s[k]),
        j == s.len() || !spec_is_jobid_char(s[j]),
    ensures
        spec_jobid_end(s, from) == j,
    decreases j - from,
{
    if from < j {
        lemma_jobid_end_at(s, from + 1, j);
    }
}

/// The session identifier announced at position `i`, if the join
/// pattern matches there: the announcement text, then a nonempty run of
/// identifier characters, closed by a quote.
pub open spec fn spec_join_capture_at(s: Seq<char>, i: int) -> Option<Seq<char>> {
    let lit = "Joining game '"@;
    if !text::spec_match_at(s, lit, i) {
        Option::None
    } else {
        let j = i + lit.len();
        let k = spec_jobid_end(s, j);
        if k > j && k < s.len() && s[k] == '\'' {
            Option::Some(s.subrange(j, k))
        } else {
            Option::None
        }
    }
}

/// The first join announcement in `s` at or after position `i`.
pub open spec fn spec_first_join_from(s: Seq<char>, i: int) -> Option<Seq<char>>
    decreases s.len() - i,
{
    if i < 0 || i >= s.len() {
        Option::None
    } else if spec_join_capture_at(s, i) is Some {
        spec_join_capture_at(s, i)
    } else {
        spec_first_join_from(s, i + 1)
    }
}

/// The session identifier a log line announces, if any.
pub open spec fn spec_join_capture(s: Seq<char>) -> Option<Seq<char>> {
    spec_first_join_from(s, 0)
}

/// Whether a log line announces that the game was left.
pub open spec fn spec_is_leave_line(s: Seq<char>) -> bool {
    ||| text::spec_contains_seq(s, "Disconnect from game"@)
    ||| text::spec_contains_seq(s, "leaveGameInternal"@)
    ||| text::spec_contains_seq(s, "leaveUGCGameInternal"@)
}

proof fn lemma_first_join_prefix(s: Seq<char>, i: int)
    requires
        0 <= i <= s.len(),
        forall|p: int| 0 <= p < i ==> spec_join_capture_at(s, p) is None,
    ensures
        spec_first_join_from(s, 0) == spec_first_join_from(s, i),
    decreases i,
{
    if i > 0 {
        lemma_first_join_prefix(s, i - 1);
    }
}

/// Classifies one log line: a join announcement (with its session
/// identifier) takes precedence, then a leave announcement, then noise.
pub fn classify_log_line(line: &str) -> (r: LogLineEvent)
    ensures
        (match spec_join_capture(line@) {
            Option::Some(id) => (r matches LogLineEvent::JoinedGame(got) && got@ == id),
            Option::None => r == (if spec_is_leave_line(line@) {
                LogLineEvent::LeftGame
            } else {
                LogLineEvent::Unrelated
            }),
        }),
{
    let n = line.unicode_len();
    let lit = "Joining game '";
    let lit_len = lit.unicode_len();
    proof {
        reveal_strlit("Joining game '");
    }
    let mut i: usize = 0;
    while i < n
        invariant
            0 <= i <= n,
            n == line@.len(),
            lit@ == "Joining game '"@,
            lit_len == lit@.len(),
            forall|p: int| 0 <= p < i ==> spec_join_capture_at(line@, p) is None,
        decreases n - i,
    {
        if lit_len <= n - i && text::str_match_at(line, lit, i, n, lit_len) {
            let start = i + lit_len;
            let mut k: usize = start;
            while k < n && is_jobid_char(line.get_char(k))
                invariant
                    start <= k <= n,
                    n == line@.len(),
                    forall|q: int| start <= q < k ==> spec_is_jobid_char(line@[q]),
                decreases n - k,
            {
                k += 1;
            }
            proof {
                lemma_jobid_end_at(line@, start as int, k as int);
            }
            if k > start && k < n && line.get_char(k) == '\'' {
                let id = line.substring_char(start, k).to_owned();
                proof {
                    assert(spec_join_capture_at(line@, i as int) == Option::Some(id@));
                    lemma_first_join_prefix(line@, i as int);
                }
                return LogLineEvent::JoinedGame(id);
            }
            proof {
                assert(spec_join_capture_at(line@, i as int) is None);
            }
        } else {
            proof {
                assert(spec_join_capture_at(line@, i as int) is None);
            }
        }
        i += 1;
    }
    proof {
        lemma_first_join_prefix(line@, n as int);
    }
    if text::str_contains(line, "Disconnect from game") || text::str_contains(
        line,
        "leaveGameInternal",
    ) || text::str_contains(line, "leaveUGCGameInternal") {
        LogLineEvent::LeftGame
    } else {
        LogLineEvent::Unrelated
    }
}

/// The current session after reading a log prefix: the identifier of
/// the last join not followed by a leave.
pub open spec fn spec_replay(lines: Seq<String>) -> Option<Seq<char>>
    decreases lines.len(),
{
    if lines.len() == 0 {
        Option::None
    } else {
        match spec_join_capture(lines.last()@) {
            Option::Some(id) => Option::Some(id),
            Option::None => {
                if spec_is_leave_line(lines.last()@) {
                    Option::None
                } else {
                    spec_replay(lines.drop_last())
                }
            },
        }
    }
}

/// Replays a whole log: the session identifier current after its last
/// line, if any.
pub fn replay_log_lines(lines: &Vec<String>) -> (r: Option<String>)
    ensures
        text::opt_string_view(r) == spec_replay(lines@),
{
    let n = lines.len();
    let mut current: Option<String> = Option::None;
    let mut i: usize = 0;
    while i < n
        invariant
            0 <= i <= n,
            n == lines@.len(),
            text::opt_string_view(current) == spec_replay(lines@.subrange(0, i as int)),
        decreases n - i,
    {
        match classify_log_line(lines[i].as_str()) {
            LogLineEvent::JoinedGame(id) => {
                current = Some(id);
            },
            LogLineEvent::LeftGame => {
                current = Option::None;
            },
            LogLineEvent::Unrelated => {
            },
        }
        proof {
            assert(lines@.subrange(0, i as int + 1).drop_last() =~= lines@.subrange(
                0,
                i as int,
            ));
            assert(lines@.subrange(0, i as int + 1).last() == lines@[i as int]);
        }
        i += 1;
    }
    proof {
        assert(lines@.subrange(0, n as int) =~= lines@);
    }
    current
}

/// What the live tail emits for one fresh log line: the joined
/// session's identifier, the global marker on a leave, nothing else.
pub fn log_line_emission(line: &str) -> (r: Option<String>)
    ensures
        (match spec_join_capture(line@) {
            Option::Some(id) => (r matches Some(s) && s@ == id),
            Option::None => {
                if spec_is_leave_line(line@) {
                    (r matches Some(s) && s@ == "global"@)
                } else {
                    r is None
                }
            },
        }),
{
    match classify_log_line(line) {
        LogLineEvent::JoinedGame(id) => Some(id),
        LogLineEvent::LeftGame => Some("global".to_owned()),
        LogLineEvent::Unrelated => Option::None,
    }
}

/// Whether a file name in the log directory is a player log, the only
/// kind the tracker reads.
pub fn is_player_log_name(name: &str) -> (r: bool)
    ensures
        r == text::spec_contains_seq(name@, "_Player"@),
{
    text::str_contains(name, "_Player")
}

} // verus!
