use std::cmp::Ordering;

use bloxchat::compare_versions;
use bloxchat::installer_file_name;
use bloxchat::is_newer_version;
use bloxchat::normalize_version;
use bloxchat::parse_semver_parts;
use bloxchat::plan_startup_update;
use bloxchat::release_msi_url;
use bloxchat::GithubRelease;
use bloxchat::GithubReleaseAsset;

fn release(tag: &str, asset_names: &[&str]) -> GithubRelease {
    GithubRelease {
        tag_name: tag.to_string(),
        assets: asset_names
            .iter()
            .map(|name| GithubReleaseAsset {
                name: name.to_string(),
                browser_download_url: format!("https://example.com/{name}"),
            })
            .collect(),
    }
}

#[test]
fn normalization_trims_and_strips_v_markers() {
    assert_eq!(normalize_version("v1.2.3"), "1.2.3");
    assert_eq!(normalize_version("  1.2.3  "), "1.2.3");
    assert_eq!(normalize_version(" vv2.0"), "2.0");
    assert_eq!(normalize_version("version"), "ersion");
    assert_eq!(normalize_version(""), "");
}

#[test]
fn semver_parts_read_dotted_numbers() {
    assert_eq!(parse_semver_parts("1.2.3"), Some(vec![1, 2, 3]));
    assert_eq!(parse_semver_parts("v1.2.3"), Some(vec![1, 2, 3]));
    assert_eq!(parse_semver_parts("1.2.3-beta.1+build"), Some(vec![1, 2, 3]));
    assert_eq!(parse_semver_parts("10"), Some(vec![10]));
    assert_eq!(
        parse_semver_parts("18446744073709551615"),
        Some(vec![18446744073709551615])
    );
}

#[test]
fn bad_versions_are_rejected() {
    assert_eq!(parse_semver_parts(""), None);
    assert_eq!(parse_semver_parts("   "), None);
    assert_eq!(parse_semver_parts("-beta"), None);
    assert_eq!(parse_semver_parts("1..2"), None);
    assert_eq!(parse_semver_parts("1.2."), None);
    assert_eq!(parse_semver_parts("1.x.2"), None);
    assert_eq!(parse_semver_parts("18446744073709551616"), None);
}

#[test]
fn leading_zeros_and_inner_whitespace_read_as_numbers() {
    assert_eq!(parse_semver_parts("01.002.0"), Some(vec![1, 2, 0]));
    // The core is trimmed again after the suffix is cut away.
    assert_eq!(parse_semver_parts("  v1.2 -beta"), Some(vec![1, 2]));
    // A space inside a segment is not a digit.
    assert_eq!(parse_semver_parts("1. 2"), None);
}

#[test]
fn comparison_pads_missing_components_with_zeros() {
    assert_eq!(compare_versions("1.2", "1.2.0"), Some(Ordering::Equal));
    assert_eq!(compare_versions("1.2.1", "1.2"), Some(Ordering::Greater));
    assert_eq!(compare_versions("1.10", "1.9"), Some(Ordering::Greater));
    assert_eq!(compare_versions("1.2.3", "2.0"), Some(Ordering::Less));
    assert_eq!(compare_versions("v1.2.3", "1.2.3"), Some(Ordering::Equal));
    assert_eq!(compare_versions("x", "1.0"), None);
    assert_eq!(compare_versions("1.0", ""), None);
}

#[test]
fn newer_means_strictly_greater() {
    assert!(is_newer_version("1.2.4", "1.2.3"));
    assert!(is_newer_version("v2.0", "1.9.9"));
    assert!(!is_newer_version("1.2.3", "1.2.3"));
    assert!(!is_newer_version("1.2.2", "1.2.3"));
    assert!(!is_newer_version("broken", "1.2.3"));
}

#[test]
fn msi_asset_is_found_ignoring_case() {
    let rel = release("v1.2.3", &["notes.txt", "bloxchat.MSI", "BloxChat.msi"]);
    assert_eq!(
        release_msi_url(&rel),
        Some("https://example.com/bloxchat.MSI".to_string())
    );
    let none = release("v1.2.3", &["notes.txt", "setup.exe"]);
    assert_eq!(release_msi_url(&none), None);
}

#[test]
fn installer_names_carry_the_version() {
    assert_eq!(installer_file_name("1.2.4"), "BloxChat-1.2.4.msi");
}

#[test]
fn update_is_planned_only_for_newer_releases_with_installer() {
    let rel = release("v1.2.4", &["BloxChat.msi"]);
    let plan = plan_startup_update("1.2.3", &rel).expect("update expected");
    assert_eq!(plan.version, "1.2.4");
    assert_eq!(plan.msi_url, "https://example.com/BloxChat.msi");
    assert_eq!(plan.installer_file_name, "BloxChat-1.2.4.msi");

    let same = release("v1.2.3", &["BloxChat.msi"]);
    assert!(plan_startup_update("1.2.3", &same).is_none());

    let no_asset = release("v9.9.9", &["setup.exe"]);
    assert!(plan_startup_update("1.2.3", &no_asset).is_none());

    let unreadable = release("nightly", &["BloxChat.msi"]);
    assert!(plan_startup_update("1.2.3", &unreadable).is_none());
}
