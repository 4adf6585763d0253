//! Core logic of a chat overlay for a game: global key capture with
//! suppression and latching, synthetic-release scheduling, version
//! comparison for the updater, media classification, and log-line parsing.

mod events;
mod html;
mod inject;
mod keys;
mod keyset;
mod logwatch;
mod media;
mod roblox;
mod scheduler;
mod session;
mod text;
mod updater;
mod version;

pub use events::build_global_key_event;
pub use events::event_timestamp_ms;
pub use events::sanitize_event_text;
pub use events::GlobalKeyEvent;
pub use html::extract_media_url_from_meta_tags;
pub use html::is_html_content_type;
pub use inject::plan_injection;
pub use inject::InjectionPlan;
pub use inject::ScanCodeEvent;
pub use inject::VirtualKeyEvent;
pub use keys::is_full_latch_eligible;
pub use keys::key_to_code;
pub use keys::key_to_virtual_key;
pub use keys::u32_to_decimal;
pub use keys::KeyId;
pub use keyset::KeySet;
pub use logwatch::classify_log_line;
pub use logwatch::is_player_log_name;
pub use logwatch::log_line_emission;
pub use logwatch::replay_log_lines;
pub use logwatch::LogLineEvent;
pub use media::classify_media_from_content_type;
pub use media::classify_media_from_path;
pub use media::classify_media_from_url_path;
pub use media::decide_media_probe;
pub use media::MediaProbe;
pub use roblox::is_roblox_process_path;
pub use scheduler::build_release_schedule;
pub use scheduler::ReleasePass;
pub use scheduler::INITIAL_RELEASE_DELAY_MS;
pub use scheduler::RELEASE_PASS_COUNT;
pub use scheduler::RETRY_RELEASE_DELAY_MS;
pub use session::CaptureState;
pub use session::ChatInputMode;
pub use session::ChatKeyPersistenceMode;
pub use session::KeyPhase;
pub use session::PressOutcome;
pub use session::ReleaseOutcome;
pub use updater::installer_file_name;
pub use updater::plan_startup_update;
pub use updater::release_msi_url;
pub use updater::GithubRelease;
pub use updater::GithubReleaseAsset;
pub use updater::UpdatePlan;
pub use version::compare_versions;
pub use version::is_newer_version;
pub use version::normalize_version;
pub use version::parse_semver_parts;
