use bloxchat::build_global_key_event;
use bloxchat::event_timestamp_ms;
use bloxchat::is_full_latch_eligible;
use bloxchat::key_to_code;
use bloxchat::key_to_virtual_key;
use bloxchat::sanitize_event_text;
use bloxchat::u32_to_decimal;
use bloxchat::KeyId;
use bloxchat::KeyPhase;
use bloxchat::KeySet;

#[test]
fn key_codes_match_the_ui_naming() {
    assert_eq!(key_to_code(KeyId::KeyA), "KeyA");
    assert_eq!(key_to_code(KeyId::Num1), "Digit1");
    assert_eq!(key_to_code(KeyId::Return), "Enter");
    assert_eq!(key_to_code(KeyId::KpReturn), "NumpadEnter");
    assert_eq!(key_to_code(KeyId::Alt), "AltLeft");
    assert_eq!(key_to_code(KeyId::AltGr), "AltRight");
    assert_eq!(key_to_code(KeyId::Dot), "Period");
    assert_eq!(key_to_code(KeyId::LeftBracket), "BracketLeft");
    assert_eq!(key_to_code(KeyId::UpArrow), "ArrowUp");
}

#[test]
fn unnamed_keys_fall_back_to_their_raw_value() {
    assert_eq!(key_to_code(KeyId::Unknown(163)), "Unknown(163)");
    assert_eq!(key_to_code(KeyId::Unknown(0)), "Unknown(0)");
    assert_eq!(key_to_code(KeyId::IntlBackslash), "IntlBackslash");
    assert_eq!(key_to_code(KeyId::Function), "Function");
}

#[test]
fn decimal_rendering_is_exact() {
    assert_eq!(u32_to_decimal(0), "0");
    assert_eq!(u32_to_decimal(7), "7");
    assert_eq!(u32_to_decimal(10), "10");
    assert_eq!(u32_to_decimal(4294967295), "4294967295");
}

#[test]
fn virtual_keys_match_the_platform_table() {
    assert_eq!(key_to_virtual_key(KeyId::KeyW), Some(0x57));
    assert_eq!(key_to_virtual_key(KeyId::Return), Some(0x0D));
    assert_eq!(key_to_virtual_key(KeyId::KpReturn), Some(0x0D));
    assert_eq!(key_to_virtual_key(KeyId::Slash), Some(0xBF));
    assert_eq!(key_to_virtual_key(KeyId::MetaLeft), Some(0x5B));
    // Function keys have no injection mapping.
    assert_eq!(key_to_virtual_key(KeyId::F1), None);
    assert_eq!(key_to_virtual_key(KeyId::F4), None);
    assert_eq!(key_to_virtual_key(KeyId::Unknown(7)), None);
}

#[test]
fn full_latch_eligibility_follows_mapping_and_reserved_keys() {
    assert!(is_full_latch_eligible(KeyId::KeyW));
    assert!(is_full_latch_eligible(KeyId::Space));
    assert!(!is_full_latch_eligible(KeyId::Slash));
    assert!(!is_full_latch_eligible(KeyId::Escape));
    assert!(!is_full_latch_eligible(KeyId::Return));
    assert!(!is_full_latch_eligible(KeyId::KpReturn));
    assert!(!is_full_latch_eligible(KeyId::F1));
}

#[test]
fn event_text_is_sanitized() {
    assert_eq!(sanitize_event_text(None), None);
    assert_eq!(sanitize_event_text(Some("")), None);
    assert_eq!(sanitize_event_text(Some("a")), Some("a".to_string()));
    assert_eq!(sanitize_event_text(Some("a\rb")), Some("ab".to_string()));
    assert_eq!(sanitize_event_text(Some("\r")), None);
    // A remaining control character voids the text entirely.
    assert_eq!(sanitize_event_text(Some("a\tb")), None);
    assert_eq!(sanitize_event_text(Some("a\nb")), None);
    assert_eq!(sanitize_event_text(Some("héllo")), Some("héllo".to_string()));
}

#[test]
fn timestamps_count_from_the_epoch() {
    let ts = event_timestamp_ms();
    // The clock reads after 2001 on any machine running this test.
    assert!(ts > 1_000_000_000_000);
}

#[test]
fn outward_event_carries_code_text_and_modifiers() {
    let mut down = KeySet::new();
    down.insert(KeyId::ControlLeft);
    down.insert(KeyId::ShiftRight);
    down.insert(KeyId::KeyC);
    let event = build_global_key_event(
        KeyId::KeyC,
        KeyPhase::Down,
        &down,
        false,
        Some("c"),
        true,
    );
    assert_eq!(event.code, "KeyC");
    assert_eq!(event.text, Some("c".to_string()));
    assert!(matches!(event.phase, KeyPhase::Down));
    assert!(event.ctrl);
    assert!(event.shift);
    assert!(event.caps);
    assert!(!event.alt);
    assert!(!event.meta);
    assert!(!event.repeat);
}

#[test]
fn outward_event_reads_alt_and_meta_from_either_side() {
    let mut down = KeySet::new();
    down.insert(KeyId::AltGr);
    down.insert(KeyId::MetaRight);
    let event = build_global_key_event(KeyId::KeyA, KeyPhase::Up, &down, true, None, false);
    assert!(event.alt);
    assert!(event.meta);
    assert!(!event.ctrl);
    assert!(!event.shift);
    assert!(!event.caps);
    assert!(event.repeat);
    assert_eq!(event.text, None);
}
