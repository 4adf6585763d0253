use bloxchat::classify_log_line;
use bloxchat::classify_media_from_content_type;
use bloxchat::classify_media_from_path;
use bloxchat::classify_media_from_url_path;
use bloxchat::decide_media_probe;
use bloxchat::is_player_log_name;
use bloxchat::is_roblox_process_path;
use bloxchat::log_line_emission;
use bloxchat::replay_log_lines;
use bloxchat::LogLineEvent;

#[test]
fn content_types_classify_by_media_type() {
    assert_eq!(classify_media_from_content_type("image/png"), Some("image"));
    assert_eq!(
        classify_media_from_content_type("video/mp4; codecs=\"avc1\""),
        Some("video")
    );
    assert_eq!(classify_media_from_content_type(" image/gif ; charset=x"), Some("image"));
    assert_eq!(classify_media_from_content_type("text/html"), None);
    assert_eq!(classify_media_from_content_type(""), None);
}

#[test]
fn paths_classify_by_file_extension() {
    assert_eq!(classify_media_from_path("/images/cat.PNG"), Some("image"));
    assert_eq!(classify_media_from_path("/v/clip.gifv"), Some("video"));
    assert_eq!(classify_media_from_path("/v/clip.webm"), Some("video"));
    assert_eq!(classify_media_from_path("/docs/readme"), None);
    assert_eq!(classify_media_from_path("/docs/archive.tar.gz"), None);
    assert_eq!(classify_media_from_path("/"), None);
    assert_eq!(classify_media_from_path("/.png"), Some("image"));
}

#[test]
fn urls_classify_by_the_path_alone() {
    // The query string is not part of the path, so it must not decide.
    assert_eq!(
        classify_media_from_url_path("https://example.com/cat.png?download=file.mp4"),
        Some("image")
    );
    assert_eq!(
        classify_media_from_url_path("https://example.com/a/b/clip.mp4"),
        Some("video")
    );
    assert_eq!(classify_media_from_url_path("https://example.com/"), None);
    assert_eq!(classify_media_from_url_path("not a url"), None);
}

#[test]
fn probe_prefers_content_type_over_extensions() {
    let by_ct = decide_media_probe(
        Some("IMAGE/PNG"),
        "https://example.com/misleading.mp4",
        "https://example.com/x",
    );
    assert!(by_ct.displayable);
    assert_eq!(by_ct.kind, "image");
    assert_eq!(by_ct.final_url, "https://example.com/misleading.mp4");

    let by_final = decide_media_probe(
        Some("text/html"),
        "https://example.com/real.webp",
        "https://example.com/x",
    );
    assert!(by_final.displayable);
    assert_eq!(by_final.kind, "image");

    let by_original = decide_media_probe(
        None,
        "https://example.com/landing",
        "https://example.com/clip.mov",
    );
    assert!(by_original.displayable);
    assert_eq!(by_original.kind, "video");

    let nothing = decide_media_probe(
        Some("text/plain"),
        "https://example.com/a",
        "https://example.com/b",
    );
    assert!(!nothing.displayable);
    assert_eq!(nothing.kind, "none");
    assert_eq!(nothing.final_url, "https://example.com/a");
}

#[test]
fn meta_tags_yield_the_first_media_url() {
    let html = "<html><head>\
        <meta charset=\"utf-8\">\
        <meta property=\"og:title\" content=\"a page\">\
        <META property=\"og:image\" CONTENT='/img/cat.png'>\
        <meta property=\"og:video\" content=\"https://cdn.example.com/clip.mp4\">\
        </head></html>";
    // The relative content is resolved against the page URL.
    assert_eq!(
        bloxchat::extract_media_url_from_meta_tags(html, "https://example.com/post/1"),
        Some("https://example.com/img/cat.png".to_string())
    );
}

#[test]
fn meta_tag_extraction_skips_unusable_values() {
    let data_url = "<meta property=\"og:image\" content=\"data:image/png;base64,xyz\">\
        <meta name=\"twitter:image\" content=\"https://example.com/real.png\">";
    assert_eq!(
        bloxchat::extract_media_url_from_meta_tags(data_url, "https://example.com/"),
        Some("https://example.com/real.png".to_string())
    );
    let nothing = "<meta property=\"og:image\" content=\"\"><p>og:image</p>";
    assert_eq!(
        bloxchat::extract_media_url_from_meta_tags(nothing, "https://example.com/"),
        None
    );
    let unrelated = "<meta name=\"description\" content=\"https://example.com/a.png\">";
    assert_eq!(
        bloxchat::extract_media_url_from_meta_tags(unrelated, "https://example.com/"),
        None
    );
}

#[test]
fn absolute_meta_urls_are_normalized_not_echoed() {
    // The URL machinery normalizes what it parses; a scheme written in
    // upper case comes back canonical, so handing the input through
    // unchanged would be visible here.
    let html = "<meta property=\"og:image\" content=\"HTTPS://EXAMPLE.com/pic.jpg\">";
    assert_eq!(
        bloxchat::extract_media_url_from_meta_tags(html, "https://other.example/"),
        Some("https://example.com/pic.jpg".to_string())
    );
}

#[test]
fn html_content_types_are_recognized() {
    assert!(bloxchat::is_html_content_type("Text/HTML; charset=utf-8"));
    assert!(!bloxchat::is_html_content_type("application/json"));
}

#[test]
fn join_lines_carry_the_session_identifier() {
    let line = "2024-01-01 [FLog::Output] Joining game 'a1b2c3-d4e5' place 42";
    match classify_log_line(line) {
        LogLineEvent::JoinedGame(id) => assert_eq!(id, "a1b2c3-d4e5"),
        other => panic!("expected a join, got {:?}", other),
    }
}

#[test]
fn join_scan_skips_candidates_with_bad_identifiers() {
    // The first announcement has no valid identifier characters, so the
    // scan must move on and take the second one.
    let line = "Joining game 'XYZ' ... Joining game 'abc-123'";
    match classify_log_line(line) {
        LogLineEvent::JoinedGame(id) => assert_eq!(id, "abc-123"),
        other => panic!("expected a join, got {:?}", other),
    }
}

#[test]
fn unterminated_or_empty_identifiers_do_not_join() {
    assert_eq!(classify_log_line("Joining game ''"), LogLineEvent::Unrelated);
    assert_eq!(classify_log_line("Joining game 'abc"), LogLineEvent::Unrelated);
    assert_eq!(classify_log_line("no events here"), LogLineEvent::Unrelated);
}

#[test]
fn leave_lines_are_recognized() {
    assert_eq!(
        classify_log_line("[Network] Disconnect from game, reason 2"),
        LogLineEvent::LeftGame
    );
    assert_eq!(classify_log_line("call leaveGameInternal()"), LogLineEvent::LeftGame);
    assert_eq!(classify_log_line("leaveUGCGameInternal start"), LogLineEvent::LeftGame);
}

#[test]
fn join_takes_precedence_over_leave_in_one_line() {
    let line = "Disconnect from game then Joining game 'abc'";
    match classify_log_line(line) {
        LogLineEvent::JoinedGame(id) => assert_eq!(id, "abc"),
        other => panic!("expected a join, got {:?}", other),
    }
}

#[test]
fn replay_yields_the_last_open_session() {
    let lines: Vec<String> = [
        "noise",
        "Joining game 'aaa-111'",
        "more noise",
        "Disconnect from game",
        "Joining game 'bbb-222'",
    ]
    .iter()
    .map(|s| s.to_string())
    .collect();
    assert_eq!(replay_log_lines(&lines), Some("bbb-222".to_string()));

    let closed: Vec<String> =
        ["Joining game 'aaa-111'", "leaveGameInternal"].iter().map(|s| s.to_string()).collect();
    assert_eq!(replay_log_lines(&closed), None);

    let empty: Vec<String> = Vec::new();
    assert_eq!(replay_log_lines(&empty), None);
}

#[test]
fn live_tail_emits_ids_and_the_global_marker() {
    assert_eq!(
        log_line_emission("Joining game 'abc-123'"),
        Some("abc-123".to_string())
    );
    assert_eq!(log_line_emission("Disconnect from game"), Some("global".to_string()));
    assert_eq!(log_line_emission("nothing"), None);
}

#[test]
fn only_player_logs_are_watched() {
    assert!(is_player_log_name("0.594.0.5940417_20240101T000000Z_Player_ABCDE_last.log"));
    assert!(!is_player_log_name("0.594.0.5940417_20240101T000000Z_Studio_last.log"));
}

#[test]
fn the_game_process_is_recognized_by_its_executable() {
    assert!(is_roblox_process_path("c:\\program files\\roblox\\robloxplayerbeta.exe"));
    assert!(is_roblox_process_path("C:\\Roblox\\RobloxPlayerBeta.exe"));
    assert!(!is_roblox_process_path("C:\\Windows\\notepad.exe"));
}
