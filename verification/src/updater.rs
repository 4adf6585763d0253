//! Startup-update decision: given the currently running version and the
//! latest published release, decide whether to update and which asset
//! to download.

use vstd::prelude::*;

use crate::text;
use crate::version;

verus! {

/// One downloadable asset of a published release.
pub struct GithubReleaseAsset {
    pub name: String,
    pub browser_download_url: String,
}

/// A published release: its tag and its assets.
pub struct GithubRelease {
    pub tag_name: String,
    pub assets: Vec<GithubReleaseAsset>,
}

/// Whether an asset name is the installer, ignoring ASCII case.
pub open spec fn spec_is_msi_asset(name: Seq<char>) -> bool {
    text::spec_lower(name) == text::spec_lower("BloxChat.msi"@)
}

/// The download URL of the first installer asset at or after index `i`.
pub open spec fn spec_first_msi_url_from(assets: Seq<GithubReleaseAsset>, i: int) -> Option<
    Seq<char>,
>
    decreases assets.len() - i,
{
    if i < 0 || i >= assets.len() {
        Option::None
    } else if spec_is_msi_asset(assets[i].name@) {
        Option::Some(assets[i].browser_download_url@)
    } else {
        spec_first_msi_url_from(assets, i + 1)
    }
}

/// The download URL of the first installer asset of a release.
pub open spec fn spec_first_msi_url(assets: Seq<GithubReleaseAsset>) -> Option<Seq<char>> {
    spec_first_msi_url_from(assets, 0)
}

/// The download URL of the release's installer asset: the first asset
/// whose name is the installer name, ignoring ASCII case.
pub fn release_msi_url(release: &GithubRelease) -> (r: Option<String>)
    ensures
        text::opt_string_view(r) == spec_first_msi_url(release.assets@),
{
    let n = release.assets.len();
    let mut i: usize = 0;
    while i < n
        invariant
            0 <= i <= n,
            n == release.assets@.len(),
            spec_first_msi_url(release.assets@) == spec_first_msi_url_from(
                release.assets@,
                i as int,
            ),
        decreases n - i,
    {
        let asset = &release.assets[i];
        if text::str_eq_ci(asset.name.as_str(), "BloxChat.msi") {
            return Some(asset.browser_download_url.clone());
        }
        i += 1;
    }
    Option::None
}

/// Whether `candidate` reads as a strictly newer version than
/// `current`: both must read as dotted numeric versions and compare
/// greater, component-wise with zero padding.
pub open spec fn spec_is_newer(candidate: Seq<char>, current: Seq<char>) -> bool {
    &&& version::spec_semver_parts(candidate) is Some
    &&& version::spec_semver_parts(current) is Some
    &&& version::spec_cmp_parts(
        version::spec_semver_parts(candidate)->0,
        version::spec_semver_parts(current)->0,
    ) == core::cmp::Ordering::Greater
}

/// Everything the embedding layer needs to run one update: the
/// normalized version, the asset URL, and the local installer file name.
pub struct UpdatePlan {
    pub version: String,
    pub msi_url: String,
    pub installer_file_name: String,
}

/// The local file name the downloaded installer is stored under.
pub fn installer_file_name(version: &str) -> (r: String)
    ensures
        r@ == "BloxChat-"@ + version@ + ".msi"@,
{
    let a = "BloxChat-".to_owned();
    let b = a.concat(version);
    let r = b.concat(".msi");
    proof {
        assert(r@ =~= "BloxChat-"@ + version@ + ".msi"@);
    }
    r
}

/// Decides the startup update: yields a plan exactly when the release's
/// normalized tag reads as a strictly newer version than the normalized
/// current version and the release carries an installer asset.
pub fn plan_startup_update(current_version: &str, release: &GithubRelease) -> (r: Option<
    UpdatePlan,
>)
    ensures
        r is Some <==> (spec_is_newer(
            version::spec_normalize_version(release.tag_name@),
            version::spec_normalize_version(current_version@),
        ) && spec_first_msi_url(release.assets@) is Some),
        (r matches Some(p) ==> {
            &&& p.version@ == version::spec_normalize_version(release.tag_name@)
            &&& Some(p.msi_url@) == spec_first_msi_url(release.assets@)
            &&& p.installer_file_name@ == "BloxChat-"@ + version::spec_normalize_version(
                release.tag_name@,
            ) + ".msi"@
        }),
{
    let latest_version = version::normalize_version(release.tag_name.as_str());
    let current_normalized = version::normalize_version(current_version);
    let should_update = version::is_newer_version(
        latest_version.as_str(),
        current_normalized.as_str(),
    );
    if !should_update {
        return Option::None;
    }
    let msi_url = match release_msi_url(release) {
        Some(url) => url,
        Option::None => {
            return Option::None;
        },
    };
    let file_name = installer_file_name(latest_version.as_str());
    Some(UpdatePlan { version: latest_version, msi_url, installer_file_name: file_name })
}

} // verus!
