use bloxchat::build_release_schedule;
use bloxchat::plan_injection;
use bloxchat::CaptureState;
use bloxchat::KeyId;
use bloxchat::INITIAL_RELEASE_DELAY_MS;
use bloxchat::RELEASE_PASS_COUNT;
use bloxchat::RETRY_RELEASE_DELAY_MS;

#[test]
fn release_schedule_repeats_four_passes_with_delays() {
    let mut state = CaptureState::new();
    state.on_key_press(KeyId::KeyW, true);
    state.on_key_press(KeyId::KeyA, true);
    state.start_capture("wasd", "focusless");
    state.activate_capture();
    let releases = state.stop_capture();
    let schedule = build_release_schedule(releases);
    assert_eq!(schedule.len(), 4);
    assert_eq!(RELEASE_PASS_COUNT, 4);
    assert_eq!(schedule[0].delay_ms, INITIAL_RELEASE_DELAY_MS);
    assert_eq!(INITIAL_RELEASE_DELAY_MS, 8);
    for pass in &schedule[1..] {
        assert_eq!(pass.delay_ms, RETRY_RELEASE_DELAY_MS);
        assert_eq!(RETRY_RELEASE_DELAY_MS, 14);
    }
    for pass in &schedule {
        // Each pass releases each latched key exactly once.
        assert_eq!(pass.keys.len(), 2);
        assert_eq!(pass.keys.iter().filter(|k| **k == KeyId::KeyW).count(), 1);
        assert_eq!(pass.keys.iter().filter(|k| **k == KeyId::KeyA).count(), 1);
    }
}

#[test]
fn empty_release_set_schedules_nothing() {
    let schedule = build_release_schedule(Vec::new());
    assert!(schedule.is_empty());
}

#[test]
fn injection_uses_scan_code_with_virtual_key_fallback() {
    let plan = plan_injection(KeyId::KeyW, false, 0x11);
    let scan = plan.scan.expect("scan path expected");
    assert_eq!(scan.scan_code, 0x11);
    assert!(!scan.extended);
    assert!(!scan.key_up);
    let fallback = plan.fallback.expect("fallback expected");
    assert_eq!(fallback.virtual_key, 0x57);
    assert!(!fallback.key_up);
}

#[test]
fn injection_marks_extended_keys() {
    let plan = plan_injection(KeyId::RightArrow, true, 0xE04D);
    let scan = plan.scan.expect("scan path expected");
    assert_eq!(scan.scan_code, 0x4D);
    assert!(scan.extended);
    assert!(scan.key_up);
    let fallback = plan.fallback.expect("fallback expected");
    assert_eq!(fallback.virtual_key, 0x27);
    assert!(fallback.key_up);
}

#[test]
fn injection_without_scan_mapping_still_sends_virtual_key() {
    let plan = plan_injection(KeyId::KeyA, true, 0);
    assert!(plan.scan.is_none());
    let fallback = plan.fallback.expect("fallback expected");
    assert_eq!(fallback.virtual_key, 0x41);
}

#[test]
fn unmapped_key_is_silently_uninjectable() {
    let plan = plan_injection(KeyId::F1, false, 0x3B);
    assert!(plan.scan.is_none());
    assert!(plan.fallback.is_none());
}

/// A stand-in foreground application: it tracks which keys it believes
/// are held, and ignores a release of a key it does not hold.
struct ToyForegroundApp {
    held: Vec<u16>,
}

impl ToyForegroundApp {
    fn new() -> Self {
        ToyForegroundApp { held: Vec::new() }
    }

    fn apply(&mut self, virtual_key: u16, key_up: bool) {
        if key_up {
            self.held.retain(|k| *k != virtual_key);
        } else if !self.held.contains(&virtual_key) {
            self.held.push(virtual_key);
        }
    }
}

#[test]
fn redundant_releases_are_idempotent_for_the_consumer() {
    let mut app = ToyForegroundApp::new();
    app.apply(0x57, false);
    app.apply(0x41, false);
    app.apply(0x41, true);
    let before = app.held.clone();
    // Releasing a key that is not held must not change anything,
    // however often the release scheduler repeats it.
    for _ in 0..4 {
        app.apply(0x41, true);
    }
    assert_eq!(app.held, before);
    assert_eq!(app.held, vec![0x57]);
}
