use zedlib::binary_manager::{
    pick_release, AssetName, GithubBinary, GithubRelease, GithubReleaseAsset, ReleaseError,
};

fn asset(name: &str, url: &str) -> GithubReleaseAsset {
    GithubReleaseAsset { name: name.to_string(), browser_download_url: url.to_string() }
}

fn release(name: &str, pre_release: bool, assets: Vec<GithubReleaseAsset>) -> GithubRelease {
    GithubRelease {
        name: name.to_string(),
        pre_release,
        assets,
        tarball_url: String::new(),
    }
}

#[test]
fn asset_names() {
    assert_eq!(AssetName::Static("clangd.zip").to_string("15.0"), "clangd.zip");
    assert_eq!(
        AssetName::Versioned("clangd-mac-{}.zip").to_string("15.0"),
        "clangd-mac-15.0.zip"
    );
    assert_eq!(AssetName::Versioned("{}-{}").to_string("v1"), "v1-v1");
    assert_eq!(AssetName::Versioned("a{b}{").to_string("X"), "a{b}{");
    assert_eq!(AssetName::Versioned("{{}}").to_string("X"), "{X}");
}

#[test]
fn latest_release_with_the_wanted_flag() {
    let releases = vec![
        release("nightly", true, vec![]),
        release("1.1", false, vec![]),
        release("1.0", false, vec![]),
    ];
    let r = pick_release(releases, false).unwrap();
    assert_eq!(r.name, "1.1");
    let releases = vec![release("1.1", false, vec![])];
    assert_eq!(pick_release(releases, true).err(), Some(ReleaseError::NoMatchingRelease));
    assert_eq!(pick_release(vec![], false).err(), Some(ReleaseError::NoMatchingRelease));
}

#[test]
fn choosing_the_asset() {
    let binary = GithubBinary::new(
        "clangd",
        "clangd/clangd",
        AssetName::Versioned("clangd-mac-{}.zip"),
        Some("bin/clangd"),
    );
    assert!(!binary.phase().preview());
    assert_eq!(binary.phase().repo(), "clangd/clangd");
    let r = release(
        "15.0",
        false,
        vec![
            asset("clangd-linux-15.0.zip", "https://x/linux"),
            asset("clangd-mac-15.0.zip", "https://x/mac"),
        ],
    );
    let with_version = binary.with_release(r, "15.0".to_string()).ok().unwrap();
    assert_eq!(with_version.phase().url(), "https://x/mac");
    assert_eq!(with_version.phase().version(), "15.0");

    let plan = with_version.sync_plan("/cache");
    assert_eq!(plan.zip_path, "/cache/clangd_15.0.zip");
    assert_eq!(plan.version_dir, "/cache/clangd_15.0");
    assert_eq!(plan.binary_path, "/cache/clangd_15.0/bin/clangd");
    let synced = GithubBinary::synced_at(plan.binary_path);
    assert_eq!(synced.path(), "/cache/clangd_15.0/bin/clangd");
}

#[test]
fn missing_asset() {
    let binary = GithubBinary::new("tool", "o/tool", AssetName::Static("tool.zip"), None).preview();
    assert!(binary.phase().preview());
    let r = release("2", true, vec![asset("other.zip", "u")]);
    assert_eq!(binary.with_release(r, "2".to_string()).err(), Some(ReleaseError::NoMatchingAsset));
}

#[test]
fn cached_binary_is_in_the_last_directory() {
    let binary = GithubBinary::new("tool", "o/tool", AssetName::Static("tool.zip"), Some("tool"));
    assert_eq!(binary.cached_binary_path(&vec![]), None);
    let dirs = vec!["/c/tool_1".to_string(), "/c/tool_2".to_string()];
    assert_eq!(binary.cached_binary_path(&dirs), Some("/c/tool_2/tool".to_string()));
    let plain = GithubBinary::new("tool", "o/tool", AssetName::Static("tool.zip"), None);
    assert_eq!(plain.cached_binary_path(&dirs), Some("/c/tool_2".to_string()));
    let plan = plain
        .with_release(release("1", false, vec![asset("tool.zip", "u")]), "1".to_string())
        .ok()
        .unwrap()
        .sync_plan("/c");
    assert_eq!(plan.binary_path, plan.version_dir);
}
