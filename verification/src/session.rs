//! Capture session state machine and suppression decision engine.
//!
//! A capture session is the interval during which chat typing is being
//! captured: keys that were held when it started may be latched (their
//! "down" state preserved for the foreground application), fresh typing
//! is suppressed, and dedicated chat keys end the session.

use vstd::prelude::*;

use crate::keys;
use crate::keys::KeyId;
use crate::keyset::KeySet;
use crate::text;

verus! {

/// Which of the keys held at capture start stay latched for the
/// foreground application while the user types.
#[derive(Clone, Copy, PartialEq, Eq, Structural, Debug)]
pub enum ChatKeyPersistenceMode {
    /// Latch every eligible key that was down.
    Full,
    /// Latch only the four movement keys.
    Wasd,
    /// Latch nothing.
    NoPersist,
}

/// How chat input is entered while a session is active.
#[derive(Clone, Copy, PartialEq, Eq, Structural, Debug)]
pub enum ChatInputMode {
    /// Chat is typed without moving OS focus; the engine suppresses keys.
    Focusless,
    /// An IME-style overlay owns input; the engine never suppresses.
    Ime,
}

/// Whether a key event is a press or a release.
#[derive(Clone, Copy, PartialEq, Eq, Structural, Debug)]
pub enum KeyPhase {
    Down,
    Up,
}

/// The persistence mode a configuration string selects: `"none"` and
/// `"wasd"` (after trimming, ignoring ASCII case) select their modes,
/// anything else falls back to `Full`.
pub open spec fn spec_parse_persistence(s: Seq<char>) -> ChatKeyPersistenceMode {
    let t = text::spec_lower(text::spec_trim(s));
    if t == "none"@ {
        ChatKeyPersistenceMode::NoPersist
    } else if t == "wasd"@ {
        ChatKeyPersistenceMode::Wasd
    } else {
        ChatKeyPersistenceMode::Full
    }
}

/// The input mode a configuration string selects: `"ime"` (after
/// trimming, ignoring ASCII case) selects `Ime`, anything else falls
/// back to `Focusless`.
pub open spec fn spec_parse_input_mode(s: Seq<char>) -> ChatInputMode {
    let t = text::spec_lower(text::spec_trim(s));
    if t == "ime"@ {
        ChatInputMode::Ime
    } else {
        ChatInputMode::Focusless
    }
}

proof fn lemma_mode_literals_are_lowercase()
    ensures
        text::spec_lower("none"@) == "none"@,
        text::spec_lower("wasd"@) == "wasd"@,
        text::spec_lower("ime"@) == "ime"@,
{
    reveal_strlit("none");
    reveal_strlit("wasd");
    reveal_strlit("ime");
    assert(text::spec_lower("none"@) =~= "none"@);
    assert(text::spec_lower("wasd"@) =~= "wasd"@);
    assert(text::spec_lower("ime"@) =~= "ime"@);
}

impl ChatKeyPersistenceMode {
    /// Reads a persistence mode from its configuration string;
    /// unrecognized values fall back to the default rather than erroring.
    pub fn parse(value: &str) -> (r: Self)
        ensures
            r == spec_parse_persistence(value@),
    {
        proof {
            lemma_mode_literals_are_lowercase();
        }
        let trimmed = text::trim_str(value);
        if text::str_eq_ci(trimmed, "none") {
            Self::NoPersist
        } else if text::str_eq_ci(trimmed, "wasd") {
            Self::Wasd
        } else {
            Self::Full
        }
    }
}

impl Default for ChatKeyPersistenceMode {
    /// The default persistence mode.
    fn default() -> (r: Self)
        ensures
            r == ChatKeyPersistenceMode::Full,
    {
        Self::Full
    }
}

impl ChatInputMode {
    /// Reads an input mode from its configuration string; unrecognized
    /// values fall back to the default rather than erroring.
    pub fn parse(value: &str) -> (r: Self)
        ensures
            r == spec_parse_input_mode(value@),
    {
        proof {
            lemma_mode_literals_are_lowercase();
        }
        let trimmed = text::trim_str(value);
        if text::str_eq_ci(trimmed, "ime") {
            Self::Ime
        } else {
            Self::Focusless
        }
    }
}

impl Default for ChatInputMode {
    /// The default input mode.
    fn default() -> (r: Self)
        ensures
            r == ChatInputMode::Focusless,
    {
        Self::Focusless
    }
}

/// Whether an Alt key (left or AltGr) is physically down.
pub open spec fn spec_alt_down(down: Set<KeyId>) -> bool {
    down.contains(KeyId::Alt) || down.contains(KeyId::AltGr)
}

/// Whether a Meta key is physically down.
pub open spec fn spec_meta_down(down: Set<KeyId>) -> bool {
    down.contains(KeyId::MetaLeft) || down.contains(KeyId::MetaRight)
}

/// The allow-list of system shortcuts that must keep working during
/// capture: raw modifier keys themselves, any key while Meta is held,
/// and Tab or F4 while Alt is held.
pub open spec fn spec_allow_system_shortcut(key: KeyId, down: Set<KeyId>) -> bool {
    ||| keys::spec_is_passthrough_modifier(key)
    ||| spec_meta_down(down)
    ||| (spec_alt_down(down) && (key == KeyId::Tab || key == KeyId::F4))
}

/// The suppression decision for one raw key event, given the session
/// state: whether the event is withheld from the foreground application.
///
/// While no session is active only the dedicated "open chat" key is
/// suppressed. An active IME-style session suppresses nothing. An active
/// focusless session lets system shortcuts through, suppresses latched
/// keys (their transitions are being faked), lets through the key-up of
/// a key held since before the session started, and suppresses all other
/// (chat) keystrokes.
pub open spec fn spec_should_suppress(
    active: bool,
    input_mode: ChatInputMode,
    latched: Set<KeyId>,
    down: Set<KeyId>,
    key: KeyId,
    phase: KeyPhase,
    was_down_at_capture: bool,
) -> bool {
    if !active {
        keys::spec_is_chat_open_key(key)
    } else if input_mode != ChatInputMode::Focusless {
        false
    } else if spec_allow_system_shortcut(key, down) {
        false
    } else if latched.contains(key) {
        true
    } else if phase == KeyPhase::Up && was_down_at_capture {
        false
    } else {
        true
    }
}

/// Which keys are latched when a session starts with the given mode.
pub open spec fn spec_latch_eligible(key: KeyId, mode: ChatKeyPersistenceMode) -> bool {
    match mode {
        ChatKeyPersistenceMode::NoPersist => false,
        ChatKeyPersistenceMode::Wasd => keys::spec_is_wasd(key),
        ChatKeyPersistenceMode::Full => keys::spec_full_latch_eligible(key),
    }
}

/// The initial latch set of a session: the keys physically down at
/// capture start, filtered by the persistence mode's policy.
pub fn select_latched_keys(physical_down: &KeySet, mode: ChatKeyPersistenceMode) -> (r:
    KeySet)
    ensures
        r@ == physical_down@.filter(|k: KeyId| spec_latch_eligible(k, mode)),
{
    let down = physical_down.to_vec();
    let mut r = KeySet::new();
    let n = down.len();
    let mut i: usize = 0;
    while i < n
        invariant
            0 <= i <= n,
            n == down@.len(),
            down@.to_set() == physical_down@,
            forall|a: KeyId| #[trigger]
                r@.contains(a) <==> (exists|j: int|
                    0 <= j < i && down@[j] == a && spec_latch_eligible(a, mode)),
        decreases n - i,
    {
        let key = down[i];
        let eligible = match mode {
            ChatKeyPersistenceMode::NoPersist => false,
            ChatKeyPersistenceMode::Wasd => keys::is_wasd(key),
            ChatKeyPersistenceMode::Full => keys::is_full_latch_eligible(key),
        };
        if eligible {
            r.insert(key);
        }
        proof {
            assert forall|a: KeyId| #[trigger] r@.contains(a) implies (exists|j: int|
                0 <= j < i + 1 && down@[j] == a && spec_latch_eligible(a, mode)) by {
                if a == key && eligible {
                    assert(down@[i as int] == a);
                } else {
                    let j = choose|j: int|
                        0 <= j < i && down@[j] == a && spec_latch_eligible(a, mode);
                    assert(down@[j] == a);
                }
            }
        }
        i += 1;
    }
    proof {
        assert forall|a: KeyId|
            r@.contains(a) == physical_down@.filter(
                |k: KeyId| spec_latch_eligible(k, mode),
            ).contains(a) by {
            if r@.contains(a) {
                let j = choose|j: int|
                    0 <= j < n && down@[j] == a && spec_latch_eligible(a, mode);
                assert(down@.contains(a));
            }
            if physical_down@.contains(a) && spec_latch_eligible(a, mode) {
                let j = choose|j: int| 0 <= j < down@.len() && down@[j] == a;
            }
        }
        assert(r@ =~= physical_down@.filter(|k: KeyId| spec_latch_eligible(k, mode)));
    }
    r
}

/// The mutable core record of the capture engine: the physically held
/// keys, the activation flag, the configured modes, the latched keys,
/// and the snapshot of keys already down when capture started.
pub struct CaptureState {
    pub physical_down: KeySet,
    pub active: bool,
    pub mode: ChatKeyPersistenceMode,
    pub input_mode: ChatInputMode,
    pub latched_keys: KeySet,
    pub capture_started_down: KeySet,
}

/// What handling one key-down asks of the surroundings.
pub struct PressOutcome {
    /// Withhold the event from the foreground application.
    pub suppress: bool,
    /// The key was already down (auto-repeat).
    pub repeat: bool,
    /// This key-down ended the active session.
    pub stopped: bool,
    /// Keys whose synthetic release must now be scheduled.
    pub keys_to_release: Vec<KeyId>,
}

/// What handling one key-up asks of the surroundings.
pub struct ReleaseOutcome {
    /// Withhold the event from the foreground application.
    pub suppress: bool,
    /// Re-issue a synthetic press: the real release of a latched key
    /// leaked through, so its faked "down" state must be restored.
    pub reinject: bool,
}

impl CaptureState {
    /// The bookkeeping invariant of an idle engine: outside an active
    /// session there are no latched keys and no start-of-capture
    /// snapshot. It holds in every state the event handlers and
    /// `stop_capture` leave behind; the one interval where it does not
    /// is between the two steps of a start, when the latch set is
    /// already recorded but suppression is not yet in effect.
    pub open spec fn inactive_is_clear(self) -> bool {
        !self.active ==> self.latched_keys@ == Set::<KeyId>::empty()
            && self.capture_started_down@ == Set::<KeyId>::empty()
    }

    /// A fresh, inactive session record.
    pub fn new() -> (r: CaptureState)
        ensures
            r.physical_down@ == Set::<KeyId>::empty(),
            !r.active,
            r.mode == ChatKeyPersistenceMode::Full,
            r.input_mode == ChatInputMode::Focusless,
            r.latched_keys@ == Set::<KeyId>::empty(),
            r.capture_started_down@ == Set::<KeyId>::empty(),
            r.inactive_is_clear(),
    {
        CaptureState {
            physical_down: KeySet::new(),
            active: false,
            mode: ChatKeyPersistenceMode::Full,
            input_mode: ChatInputMode::Focusless,
            latched_keys: KeySet::new(),
            capture_started_down: KeySet::new(),
        }
    }

    /// The suppression decision for one event against this state.
    pub fn should_suppress_key_event(
        &self,
        key: KeyId,
        phase: KeyPhase,
        was_down_at_capture: bool,
    ) -> (r: bool)
        ensures
            r == spec_should_suppress(
                self.active,
                self.input_mode,
                self.latched_keys@,
                self.physical_down@,
                key,
                phase,
                was_down_at_capture,
            ),
    {
        if !self.active {
            return keys::is_chat_open_key(key);
        }
        if !matches!(self.input_mode, ChatInputMode::Focusless) {
            return false;
        }
        if self.allows_system_shortcut(key) {
            return false;
        }
        if self.latched_keys.contains(key) {
            return true;
        }
        if matches!(phase, KeyPhase::Up) && was_down_at_capture {
            return false;
        }
        true
    }

    /// Whether the event is an allow-listed system shortcut that must
    /// reach the OS even during capture.
    pub fn allows_system_shortcut(&self, key: KeyId) -> (r: bool)
        ensures
            r == spec_allow_system_shortcut(key, self.physical_down@),
    {
        if keys::is_passthrough_modifier(key) {
            return true;
        }
        if self.is_meta_down() {
            return true;
        }
        if self.is_alt_down() && matches!(key, KeyId::Tab | KeyId::F4) {
            return true;
        }
        false
    }

    /// Whether an Alt key is physically held.
    pub fn is_alt_down(&self) -> (r: bool)
        ensures
            r == spec_alt_down(self.physical_down@),
    {
        self.physical_down.contains(KeyId::Alt) || self.physical_down.contains(KeyId::AltGr)
    }

    /// Whether a Meta key is physically held.
    pub fn is_meta_down(&self) -> (r: bool)
        ensures
            r == spec_meta_down(self.physical_down@),
    {
        self.physical_down.contains(KeyId::MetaLeft) || self.physical_down.contains(
            KeyId::MetaRight,
        )
    }

    /// First step of starting a capture session: records the modes,
    /// snapshots the keys currently down, and computes the latch set,
    /// leaving the activation flag as it was. Returns the latched keys,
    /// for which the caller must issue one synthetic press each (so a
    /// later synthetic release reliably ends them), and only then call
    /// `activate_capture`. Activating first would turn the engine's own
    /// suppression against those seed presses: each one would loop back
    /// through the hook as a transition of an already-latched key and
    /// be vetoed before the foreground application sees it.
    pub fn start_capture(&mut self, mode: &str, input_mode: &str) -> (presses: Vec<KeyId>)
        ensures
            final(self).mode == spec_parse_persistence(mode@),
            final(self).input_mode == spec_parse_input_mode(input_mode@),
            final(self).active == old(self).active,
            final(self).physical_down@ == old(self).physical_down@,
            final(self).capture_started_down@ == old(self).physical_down@,
            final(self).latched_keys@ == old(self).physical_down@.filter(
                |k: KeyId| spec_latch_eligible(k, final(self).mode),
            ),
            presses@.to_set() == final(self).latched_keys@,
            presses@.no_duplicates(),
    {
        let mode = ChatKeyPersistenceMode::parse(mode);
        let input_mode = ChatInputMode::parse(input_mode);
        self.mode = mode;
        self.input_mode = input_mode;
        let mut snapshot = KeySet::new();
        core::mem::swap(&mut snapshot, &mut self.capture_started_down);
        let down = self.physical_down.to_vec();
        let mut started = KeySet::new();
        let n = down.len();
        let mut i: usize = 0;
        while i < n
            invariant
                0 <= i <= n,
                n == down@.len(),
                started@ == down@.subrange(0, i as int).to_set(),
            decreases n - i,
        {
            started.insert(down[i]);
            proof {
                let pre = down@.subrange(0, i as int);
                let post = down@.subrange(0, i as int + 1);
                let k = down@[i as int];
                assert forall|a: KeyId| post.to_set().contains(a) implies pre.to_set().insert(
                    k,
                ).contains(a) by {
                    let j = choose|j: int| 0 <= j < post.len() && post[j] == a;
                    if j < pre.len() {
                        assert(pre[j] == a);
                    }
                }
                assert forall|a: KeyId| pre.to_set().insert(k).contains(a) implies post
                    .to_set().contains(a) by {
                    if a == k {
                        assert(post[pre.len() as int] == a);
                        assert(post.contains(a));
                    } else {
                        let j = choose|j: int| 0 <= j < pre.len() && pre[j] == a;
                        assert(post[j] == a);
                        assert(post.contains(a));
                    }
                }
                assert(started@ =~= post.to_set());
            }
            i += 1;
        }
        proof {
            assert(down@.subrange(0, n as int) =~= down@);
        }
        self.capture_started_down = started;
        let mut latched = select_latched_keys(&self.physical_down, mode);
        core::mem::swap(&mut latched, &mut self.latched_keys);
        self.latched_keys.to_vec()
    }

    /// Second step of starting a capture session: puts suppression and
    /// latching into effect. Called after the seed presses returned by
    /// `start_capture` have been injected.
    pub fn activate_capture(&mut self)
        ensures
            final(self).active,
            final(self).physical_down@ == old(self).physical_down@,
            final(self).mode == old(self).mode,
            final(self).input_mode == old(self).input_mode,
            final(self).latched_keys@ == old(self).latched_keys@,
            final(self).capture_started_down@ == old(self).capture_started_down@,
    {
        self.active = true;
    }

    /// Stops the session: deactivates, clears the snapshot, and empties
    /// the latch set. Returns the keys that were latched; the caller
    /// must hand them to the release scheduler.
    pub fn stop_capture(&mut self) -> (releases: Vec<KeyId>)
        ensures
            !final(self).active,
            final(self).physical_down@ == old(self).physical_down@,
            final(self).mode == old(self).mode,
            final(self).input_mode == old(self).input_mode,
            final(self).capture_started_down@ == Set::<KeyId>::empty(),
            final(self).latched_keys@ == Set::<KeyId>::empty(),
            final(self).inactive_is_clear(),
            releases@.to_set() == old(self).latched_keys@,
            releases@.no_duplicates(),
    {
        self.active = false;
        self.capture_started_down.clear();
        let taken = self.latched_keys.take();
        taken.to_vec()
    }

    /// Handles one raw key-down: tracks the key as held, ends the
    /// session if the key is a dedicated chat submit/cancel key, and
    /// decides suppression. `can_suppress` says whether the focus oracle
    /// allows suppressing at all for this event.
    pub fn on_key_press(&mut self, key: KeyId, can_suppress: bool) -> (r: PressOutcome)
        ensures
            r.repeat == old(self).physical_down@.contains(key),
            final(self).physical_down@ == old(self).physical_down@.insert(key),
            final(self).mode == old(self).mode,
            final(self).input_mode == old(self).input_mode,
            r.stopped == (old(self).active && old(self).input_mode == ChatInputMode::Focusless
                && keys::spec_is_terminator(key)),
            r.stopped ==> {
                &&& !final(self).active
                &&& final(self).capture_started_down@ == Set::<KeyId>::empty()
                &&& final(self).latched_keys@ == Set::<KeyId>::empty()
                &&& r.keys_to_release@.to_set() == old(self).latched_keys@
                &&& r.keys_to_release@.no_duplicates()
                &&& r.suppress == can_suppress
            },
            !r.stopped ==> {
                &&& final(self).active == old(self).active
                &&& final(self).capture_started_down@ == old(self).capture_started_down@
                &&& final(self).latched_keys@ == old(self).latched_keys@
                &&& r.keys_to_release@ == Seq::<KeyId>::empty()
                &&& r.suppress == (can_suppress && spec_should_suppress(
                    old(self).active,
                    old(self).input_mode,
                    old(self).latched_keys@,
                    old(self).physical_down@.insert(key),
                    key,
                    KeyPhase::Down,
                    false,
                ))
            },
            old(self).inactive_is_clear() ==> final(self).inactive_is_clear(),
    {
        let was_new = self.physical_down.insert(key);
        let repeat = !was_new;
        let should_backend_stop = self.active && matches!(
            self.input_mode,
            ChatInputMode::Focusless,
        ) && keys::is_terminator(key);
        let suppress = if should_backend_stop {
            can_suppress
        } else {
            can_suppress && self.should_suppress_key_event(key, KeyPhase::Down, false)
        };
        let keys_to_release: Vec<KeyId> = if should_backend_stop {
            self.active = false;
            self.capture_started_down.clear();
            let taken = self.latched_keys.take();
            taken.to_vec()
        } else {
            Vec::new()
        };
        PressOutcome { suppress, repeat, stopped: should_backend_stop, keys_to_release }
    }

    /// Handles one raw key-up: decides suppression (letting through the
    /// expected release of a key held since before capture started),
    /// stops tracking the key, and asks for a synthetic re-press when
    /// the real release of a latched key was let through.
    pub fn on_key_release(&mut self, key: KeyId, can_suppress: bool) -> (r: ReleaseOutcome)
        ensures
            final(self).physical_down@ == old(self).physical_down@.remove(key),
            final(self).capture_started_down@ == old(self).capture_started_down@.remove(key),
            final(self).active == old(self).active,
            final(self).mode == old(self).mode,
            final(self).input_mode == old(self).input_mode,
            final(self).latched_keys@ == old(self).latched_keys@,
            r.suppress == (can_suppress && spec_should_suppress(
                old(self).active,
                old(self).input_mode,
                old(self).latched_keys@,
                old(self).physical_down@,
                key,
                KeyPhase::Up,
                old(self).capture_started_down@.contains(key),
            )),
            r.reinject == (old(self).active && old(self).latched_keys@.contains(key)
                && !r.suppress),
            old(self).inactive_is_clear() ==> final(self).inactive_is_clear(),
    {
        let was_down_at_capture = self.capture_started_down.remove(key);
        let suppress = can_suppress && self.should_suppress_key_event(
            key,
            KeyPhase::Up,
            was_down_at_capture,
        );
        self.physical_down.remove(key);
        let reinject = self.active && self.latched_keys.contains(key) && !suppress;
        proof {
            if old(self).inactive_is_clear() && !self.active {
                assert(self.capture_started_down@ =~= Set::<KeyId>::empty());
            }
        }
        ReleaseOutcome { suppress, reinject }
    }
}

/// Law: starting capture with the mode string `"wasd"` selects the
/// `Wasd` persistence mode, and a key that was physically down at start
/// is latched exactly when it is one of the four movement keys (see the
/// latch-set clause of `CaptureState::start_capture`).
pub proof fn lemma_wasd_capture_latches_exactly_wasd(down: Set<KeyId>, k: KeyId)
    requires
        down.contains(k),
    ensures
        spec_parse_persistence("wasd"@) == ChatKeyPersistenceMode::Wasd,
        down.filter(
            |key: KeyId| spec_latch_eligible(key, spec_parse_persistence("wasd"@)),
        ).contains(k) <==> keys::spec_is_wasd(k),
{
    lemma_mode_literals_are_lowercase();
    reveal_strlit("wasd");
    reveal_strlit("none");
    assert(text::spec_trim("wasd"@) == "wasd"@);
    assert("wasd"@ != "none"@) by {
        assert("wasd"@[0] != "none"@[0]);
    }
}

/// Law: while a focusless session is active and the focus oracle allows
/// suppression, a key-down of a key that is neither latched nor an
/// allow-listed system shortcut is suppressed (raw modifiers, any key
/// under Meta, and Tab/F4 under Alt are the allow-listed exceptions).
pub proof fn lemma_fresh_keydown_suppressed(s: CaptureState, k: KeyId)
    requires
        s.active,
        s.input_mode == ChatInputMode::Focusless,
        !s.latched_keys@.contains(k),
        !spec_allow_system_shortcut(k, s.physical_down@),
    ensures
        spec_should_suppress(
            s.active,
            s.input_mode,
            s.latched_keys@,
            s.physical_down@,
            k,
            KeyPhase::Down,
            false,
        ),
{
}

/// Law: the key-up of a key held since before the session started is
/// let through to the foreground application (whether or not it is an
/// allow-listed shortcut), provided the key is not latched; and after
/// `CaptureState::on_key_release` handles it the key is no longer in
/// the start-of-capture snapshot, so this happens exactly once.
pub proof fn lemma_started_keyup_passes(s: CaptureState, k: KeyId)
    requires
        s.active,
        s.input_mode == ChatInputMode::Focusless,
        s.capture_started_down@.contains(k),
        !s.latched_keys@.contains(k),
    ensures
        !spec_should_suppress(
            s.active,
            s.input_mode,
            s.latched_keys@,
            s.physical_down@,
            k,
            KeyPhase::Up,
            s.capture_started_down@.contains(k),
        ),
        !s.capture_started_down@.remove(k).contains(k),
{
}

} // verus!
