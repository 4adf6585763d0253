use bloxchat::CaptureState;
use bloxchat::ChatInputMode;
use bloxchat::ChatKeyPersistenceMode;
use bloxchat::KeyId;
use bloxchat::KeySet;

fn press(state: &mut CaptureState, key: KeyId) {
    state.on_key_press(key, true);
}

#[test]
fn wasd_mode_latches_exactly_movement_keys() {
    let mut state = CaptureState::new();
    press(&mut state, KeyId::KeyW);
    press(&mut state, KeyId::KeyA);
    press(&mut state, KeyId::ShiftLeft);
    press(&mut state, KeyId::KeyQ);
    let presses = state.start_capture("wasd", "focusless");
    state.activate_capture();
    assert!(state.active);
    assert!(state.latched_keys.contains(KeyId::KeyW));
    assert!(state.latched_keys.contains(KeyId::KeyA));
    assert!(!state.latched_keys.contains(KeyId::ShiftLeft));
    assert!(!state.latched_keys.contains(KeyId::KeyQ));
    assert_eq!(state.latched_keys.len(), 2);
    assert_eq!(presses.len(), 2);
    assert!(presses.contains(&KeyId::KeyW));
    assert!(presses.contains(&KeyId::KeyA));
}

#[test]
fn none_mode_latches_nothing() {
    let mut state = CaptureState::new();
    press(&mut state, KeyId::KeyW);
    press(&mut state, KeyId::KeyD);
    let presses = state.start_capture("none", "focusless");
    state.activate_capture();
    assert!(presses.is_empty());
    assert!(state.latched_keys.is_empty());
}

#[test]
fn full_mode_excludes_reserved_and_unmapped_keys() {
    let mut state = CaptureState::new();
    press(&mut state, KeyId::KeyW);
    press(&mut state, KeyId::Slash);
    press(&mut state, KeyId::Escape);
    press(&mut state, KeyId::Return);
    press(&mut state, KeyId::KpReturn);
    press(&mut state, KeyId::F1);
    press(&mut state, KeyId::ShiftLeft);
    let presses = state.start_capture("full", "focusless");
    state.activate_capture();
    assert_eq!(presses.len(), 2);
    assert!(state.latched_keys.contains(KeyId::KeyW));
    assert!(state.latched_keys.contains(KeyId::ShiftLeft));
    assert!(!state.latched_keys.contains(KeyId::Slash));
    // None of the three capture-ending keys may be latched.
    assert!(!state.latched_keys.contains(KeyId::Escape));
    assert!(!state.latched_keys.contains(KeyId::Return));
    assert!(!state.latched_keys.contains(KeyId::KpReturn));
    // F1 has no injection mapping, so it can never be released again.
    assert!(!state.latched_keys.contains(KeyId::F1));
}

#[test]
fn seed_presses_pass_through_before_activation() {
    let mut state = CaptureState::new();
    press(&mut state, KeyId::KeyW);
    let presses = state.start_capture("full", "focusless");
    assert_eq!(presses, vec![KeyId::KeyW]);
    // Between the two steps of a start, suppression is not yet in
    // effect: the seed press of the latched key loops back through the
    // hook and must reach the foreground application.
    assert!(!state.active);
    let seed = state.on_key_press(KeyId::KeyW, true);
    assert!(!seed.suppress);
    state.activate_capture();
    assert!(state.active);
    // From now on the latched key's real transitions are withheld.
    let later = state.on_key_press(KeyId::KeyW, true);
    assert!(later.suppress);
}

#[test]
fn mode_strings_are_trimmed_and_case_insensitive() {
    let mut state = CaptureState::new();
    press(&mut state, KeyId::KeyW);
    state.start_capture("  WaSd  ", "IME");
    state.activate_capture();
    assert!(matches!(state.mode, ChatKeyPersistenceMode::Wasd));
    assert!(matches!(state.input_mode, ChatInputMode::Ime));
    state.stop_capture();
    state.start_capture("unknown", "garbage");
    state.activate_capture();
    assert!(matches!(state.mode, ChatKeyPersistenceMode::Full));
    assert!(matches!(state.input_mode, ChatInputMode::Focusless));
}

#[test]
fn persistence_mode_parsing_falls_back_to_full() {
    assert!(matches!(
        ChatKeyPersistenceMode::parse("none"),
        ChatKeyPersistenceMode::NoPersist
    ));
    assert!(matches!(
        ChatKeyPersistenceMode::parse(" WASD\t"),
        ChatKeyPersistenceMode::Wasd
    ));
    assert!(matches!(ChatKeyPersistenceMode::parse("full"), ChatKeyPersistenceMode::Full));
    assert!(matches!(ChatKeyPersistenceMode::parse(""), ChatKeyPersistenceMode::Full));
    assert!(matches!(
        ChatKeyPersistenceMode::parse("nonsense"),
        ChatKeyPersistenceMode::Full
    ));
    assert!(matches!(ChatKeyPersistenceMode::default(), ChatKeyPersistenceMode::Full));
}

#[test]
fn input_mode_parsing_falls_back_to_focusless() {
    assert!(matches!(ChatInputMode::parse("ime"), ChatInputMode::Ime));
    assert!(matches!(ChatInputMode::parse("  ImE "), ChatInputMode::Ime));
    assert!(matches!(ChatInputMode::parse("focusless"), ChatInputMode::Focusless));
    assert!(matches!(ChatInputMode::parse("whatever"), ChatInputMode::Focusless));
    assert!(matches!(ChatInputMode::default(), ChatInputMode::Focusless));
}

#[test]
fn fresh_keydown_is_suppressed_while_active() {
    let mut state = CaptureState::new();
    state.start_capture("full", "focusless");
    state.activate_capture();
    let outcome = state.on_key_press(KeyId::KeyQ, true);
    assert!(outcome.suppress);
    assert!(!outcome.stopped);
    assert!(outcome.keys_to_release.is_empty());
}

#[test]
fn keydown_is_not_suppressed_without_focus_permission() {
    let mut state = CaptureState::new();
    state.start_capture("full", "focusless");
    state.activate_capture();
    let outcome = state.on_key_press(KeyId::KeyQ, false);
    assert!(!outcome.suppress);
}

#[test]
fn ime_mode_suppresses_nothing() {
    let mut state = CaptureState::new();
    state.start_capture("full", "ime");
    state.activate_capture();
    let outcome = state.on_key_press(KeyId::KeyQ, true);
    assert!(!outcome.suppress);
    let up = state.on_key_release(KeyId::KeyQ, true);
    assert!(!up.suppress);
}

#[test]
fn inactive_session_reserves_only_chat_open_key() {
    let mut state = CaptureState::new();
    let slash = state.on_key_press(KeyId::Slash, true);
    assert!(slash.suppress);
    state.on_key_release(KeyId::Slash, true);
    let other = state.on_key_press(KeyId::KeyQ, true);
    assert!(!other.suppress);
}

#[test]
fn started_down_keyup_passes_through_exactly_once() {
    let mut state = CaptureState::new();
    press(&mut state, KeyId::KeyW);
    // "none" keeps W unlatched but still in the start-of-capture snapshot.
    state.start_capture("none", "focusless");
    state.activate_capture();
    assert!(state.capture_started_down.contains(KeyId::KeyW));
    let first_up = state.on_key_release(KeyId::KeyW, true);
    assert!(!first_up.suppress);
    assert!(!state.capture_started_down.contains(KeyId::KeyW));
    // A second release of the same key is ordinary chat input now.
    let second_up = state.on_key_release(KeyId::KeyW, true);
    assert!(second_up.suppress);
}

#[test]
fn latched_key_real_transitions_are_suppressed() {
    let mut state = CaptureState::new();
    press(&mut state, KeyId::KeyW);
    state.start_capture("wasd", "focusless");
    state.activate_capture();
    // The real key-up of a latched key must not leak through.
    let up = state.on_key_release(KeyId::KeyW, true);
    assert!(up.suppress);
    assert!(!up.reinject);
    // When suppression is not available, the leaked release is
    // compensated with a synthetic re-press.
    press(&mut state, KeyId::KeyW);
    let up2 = state.on_key_release(KeyId::KeyW, false);
    assert!(!up2.suppress);
    assert!(up2.reinject);
}

#[test]
fn repeat_flag_marks_keys_already_down() {
    let mut state = CaptureState::new();
    let first = state.on_key_press(KeyId::KeyA, false);
    assert!(!first.repeat);
    let second = state.on_key_press(KeyId::KeyA, false);
    assert!(second.repeat);
}

#[test]
fn escape_stops_session_and_is_suppressed() {
    let mut state = CaptureState::new();
    state.start_capture("full", "focusless");
    state.activate_capture();
    let outcome = state.on_key_press(KeyId::Escape, true);
    assert!(outcome.stopped);
    assert!(outcome.suppress);
    assert!(!state.active);
    assert!(state.latched_keys.is_empty());
    assert!(state.capture_started_down.is_empty());
}

#[test]
fn enter_and_numpad_enter_also_stop_the_session() {
    for key in [KeyId::Return, KeyId::KpReturn] {
        let mut state = CaptureState::new();
        state.start_capture("full", "focusless");
        state.activate_capture();
        let outcome = state.on_key_press(key, true);
        assert!(outcome.stopped);
        assert!(!state.active);
    }
}

#[test]
fn terminator_does_not_stop_ime_session() {
    let mut state = CaptureState::new();
    state.start_capture("full", "ime");
    state.activate_capture();
    let outcome = state.on_key_press(KeyId::Return, true);
    assert!(!outcome.stopped);
    assert!(state.active);
}

#[test]
fn system_shortcuts_pass_through_during_capture() {
    let mut state = CaptureState::new();
    state.start_capture("full", "focusless");
    state.activate_capture();
    // Raw modifier keys themselves are never suppressed.
    let alt = state.on_key_press(KeyId::Alt, true);
    assert!(!alt.suppress);
    // Tab while Alt is held must keep window switching alive.
    let tab = state.on_key_press(KeyId::Tab, true);
    assert!(!tab.suppress);
    let f4 = state.on_key_press(KeyId::F4, true);
    assert!(!f4.suppress);
    state.on_key_release(KeyId::Alt, true);
    // Tab without Alt is chat input.
    let plain_tab = state.on_key_press(KeyId::Tab, true);
    assert!(plain_tab.suppress);
}

#[test]
fn any_key_passes_while_meta_is_held() {
    let mut state = CaptureState::new();
    state.start_capture("full", "focusless");
    state.activate_capture();
    press(&mut state, KeyId::MetaLeft);
    let e = state.on_key_press(KeyId::KeyE, true);
    assert!(!e.suppress);
}

#[test]
fn stop_capture_hands_back_the_latch_set() {
    let mut state = CaptureState::new();
    press(&mut state, KeyId::KeyW);
    press(&mut state, KeyId::KeyA);
    state.start_capture("wasd", "focusless");
    state.activate_capture();
    let releases = state.stop_capture();
    assert_eq!(releases.len(), 2);
    assert!(releases.contains(&KeyId::KeyW));
    assert!(releases.contains(&KeyId::KeyA));
    assert!(!state.active);
    assert!(state.latched_keys.is_empty());
    assert!(state.capture_started_down.is_empty());
}

#[test]
fn full_scenario_latch_shortcut_and_stop() {
    let mut state = CaptureState::new();
    press(&mut state, KeyId::KeyW);
    press(&mut state, KeyId::ShiftLeft);
    let presses = state.start_capture("full", "focusless");
    state.activate_capture();
    assert_eq!(presses.len(), 2);
    assert!(state.latched_keys.contains(KeyId::KeyW));
    assert!(state.latched_keys.contains(KeyId::ShiftLeft));
    press(&mut state, KeyId::Alt);
    let tab = state.on_key_press(KeyId::Tab, true);
    assert!(!tab.suppress);
    let enter = state.on_key_press(KeyId::Return, true);
    assert!(enter.stopped);
    assert!(enter.suppress);
    assert!(!state.active);
    assert_eq!(enter.keys_to_release.len(), 2);
    assert!(enter.keys_to_release.contains(&KeyId::KeyW));
    assert!(enter.keys_to_release.contains(&KeyId::ShiftLeft));
    let schedule = bloxchat::build_release_schedule(enter.keys_to_release);
    assert_eq!(schedule.len(), 4);
}

#[test]
fn keyset_tracks_membership_without_duplicates() {
    let mut set = KeySet::new();
    assert!(set.is_empty());
    assert!(set.insert(KeyId::KeyA));
    assert!(!set.insert(KeyId::KeyA));
    assert!(set.insert(KeyId::KeyB));
    assert_eq!(set.len(), 2);
    assert!(set.contains(KeyId::KeyA));
    assert!(set.remove(KeyId::KeyA));
    assert!(!set.remove(KeyId::KeyA));
    assert!(!set.contains(KeyId::KeyA));
    let drained = set.take();
    assert!(set.is_empty());
    assert!(drained.contains(KeyId::KeyB));
    let listed = drained.to_vec();
    assert_eq!(listed, vec![KeyId::KeyB]);
}
