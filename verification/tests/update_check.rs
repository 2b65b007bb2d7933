use countdown_timer::check::evaluate_release;
use countdown_timer::check::status_error;
use countdown_timer::check::trim_v_prefix;
use countdown_timer::check::UpdateError;
use countdown_timer::release::find_installer_url;
use countdown_timer::release::GitHubRelease;
use countdown_timer::release::ReleaseAsset;
use countdown_timer::version::is_newer_version;
use countdown_timer::version::parse_version;
use countdown_timer::version::SemVer;

fn asset(name: &str, url: &str) -> ReleaseAsset {
    ReleaseAsset { name: name.to_string(), browser_download_url: url.to_string() }
}

fn release(tag: &str, assets: Vec<ReleaseAsset>) -> GitHubRelease {
    GitHubRelease {
        tag_name: tag.to_string(),
        html_url: "https://example.com/releases".to_string(),
        body: Some("release notes".to_string()),
        assets,
    }
}

#[test]
fn update_available_when_latest_greater() {
    let r = evaluate_release("1.2.0", &release("v1.3.0", vec![])).unwrap();
    assert!(r.has_update);
    assert_eq!(r.current_version, "1.2.0");
    assert_eq!(r.latest_version, "1.3.0");
    assert_eq!(r.download_url, "https://example.com/releases");
    assert_eq!(r.release_notes, Some("release notes".to_string()));
}

#[test]
fn no_update_when_latest_equal() {
    let r = evaluate_release("1.2.0", &release("v1.2.0", vec![])).unwrap();
    assert!(!r.has_update);
}

#[test]
fn no_update_when_latest_older() {
    let r = evaluate_release("1.2.0", &release("v1.1.9", vec![])).unwrap();
    assert!(!r.has_update);
}

#[test]
fn invalid_current_version_reported_first() {
    let e = evaluate_release("not-a-version", &release("also-bad", vec![])).unwrap_err();
    assert_eq!(e, UpdateError::CurrentVersionInvalid);
}

#[test]
fn invalid_latest_version_reported() {
    let e = evaluate_release("1.0.0", &release("release-2024", vec![])).unwrap_err();
    assert_eq!(e, UpdateError::LatestVersionInvalid);
}

#[test]
fn setup_exe_preferred_over_msi() {
    let assets = vec![
        asset("App-Setup.exe", "https://dl.example.com/App-Setup.exe"),
        asset("App.msi", "https://dl.example.com/App.msi"),
    ];
    assert_eq!(
        find_installer_url(&assets),
        Some("https://dl.example.com/App-Setup.exe".to_string())
    );
}

#[test]
fn setup_exe_found_case_insensitively() {
    let assets = vec![asset("APP-SETUP-1.0.EXE", "https://dl.example.com/u")];
    assert_eq!(find_installer_url(&assets), Some("https://dl.example.com/u".to_string()));
}

#[test]
fn msi_chosen_when_no_setup_exe() {
    let assets = vec![asset("App.msi", "https://dl.example.com/App.msi")];
    assert_eq!(find_installer_url(&assets), Some("https://dl.example.com/App.msi".to_string()));
}

#[test]
fn no_installer_asset_yields_none() {
    let assets = vec![asset("README.txt", "https://dl.example.com/README.txt")];
    assert_eq!(find_installer_url(&assets), None);
}

#[test]
fn release_page_used_when_no_installer_asset() {
    let assets = vec![asset("README.txt", "https://dl.example.com/README.txt")];
    let r = evaluate_release("1.0.0", &release("v2.0.0", assets)).unwrap();
    assert!(r.has_update);
    assert_eq!(r.download_url, "https://example.com/releases");
}

#[test]
fn installer_asset_used_as_download_url() {
    let assets = vec![
        asset("notes.txt", "https://dl.example.com/notes.txt"),
        asset("Timer-Setup-2.0.exe", "https://dl.example.com/Timer-Setup-2.0.exe"),
    ];
    let r = evaluate_release("1.0.0", &release("v2.0.0", assets)).unwrap();
    assert_eq!(r.download_url, "https://dl.example.com/Timer-Setup-2.0.exe");
}

#[test]
fn forbidden_without_token_mentions_vpn() {
    let msg = status_error(403, false).message();
    assert!(msg.contains("VPN"));
}

#[test]
fn forbidden_with_token_mentions_token() {
    let msg = status_error(403, true).message();
    assert!(msg.contains("token"));
}

#[test]
fn not_found_mentions_no_release() {
    let msg = status_error(404, false).message();
    assert!(msg.contains("No release information found"));
}

#[test]
fn other_status_carries_the_code() {
    let msg = status_error(500, false).message();
    assert_eq!(msg, "GitHub API returned an error (500): please try again later");
}

#[test]
fn tag_prefix_trimming() {
    assert_eq!(trim_v_prefix("v1.3.0"), "1.3.0");
    assert_eq!(trim_v_prefix("1.3.0"), "1.3.0");
    assert_eq!(trim_v_prefix("vv2.0.0"), "2.0.0");
    assert_eq!(trim_v_prefix(""), "");
}

#[test]
fn parse_version_reads_components() {
    let v = parse_version("1.2.3").unwrap();
    assert_eq!((v.major, v.minor, v.patch), (1, 2, 3));
    assert!(v.pre.is_empty());
}

#[test]
fn parse_version_reads_prerelease_identifiers() {
    let v = parse_version("1.2.3-alpha.7.x").unwrap();
    assert_eq!(v.pre, vec!["alpha".to_string(), "7".to_string(), "x".to_string()]);
}

#[test]
fn parse_version_rejects_garbage() {
    assert!(parse_version("not-a-version").is_none());
    assert!(parse_version("1.2").is_none());
}

fn newer(a: &str, b: &str) -> bool {
    let va = parse_version(a).unwrap();
    let vb = parse_version(b).unwrap();
    is_newer_version(&va, &vb)
}

#[test]
fn semver_precedence_chain() {
    let chain = [
        "1.0.0-alpha",
        "1.0.0-alpha.1",
        "1.0.0-alpha.beta",
        "1.0.0-beta",
        "1.0.0-beta.2",
        "1.0.0-beta.11",
        "1.0.0-rc.1",
        "1.0.0",
    ];
    for i in 0..chain.len() {
        for j in 0..chain.len() {
            assert_eq!(newer(chain[i], chain[j]), i < j, "{} vs {}", chain[i], chain[j]);
        }
    }
}

#[test]
fn build_metadata_has_no_precedence() {
    assert!(!newer("1.0.0+build5", "1.0.0"));
    assert!(!newer("1.0.0", "1.0.0+build5"));
}

#[test]
fn numeric_components_compare_numerically() {
    assert!(newer("1.9.0", "1.10.0"));
    assert!(newer("0.9.9", "1.0.0"));
    assert!(!newer("2.0.0", "1.99.99"));
}

#[test]
fn constructed_versions_compare() {
    let a = SemVer { major: 1, minor: 2, patch: 0, pre: Vec::new() };
    let b = SemVer { major: 1, minor: 3, patch: 0, pre: Vec::new() };
    assert!(is_newer_version(&a, &b));
    assert!(!is_newer_version(&b, &a));
}
