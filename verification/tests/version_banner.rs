use hdr::version::{
    assets_disabled_warning, banner_from_files, needs_version_banner, version_banner,
    version_or_unknown,
};

#[test]
fn banner_only_for_game_version_text() {
    assert!(needs_version_banner("Ver. 13.0.1"));
    assert!(!needs_version_banner("Online"));
}

#[test]
fn version_file_contents_are_trimmed() {
    assert_eq!(version_or_unknown(Some("  v1.2.3 \n")), "v1.2.3");
    assert_eq!(version_or_unknown(None), "UNKNOWN");
    assert_eq!(version_or_unknown(Some("")), "");
}

#[test]
fn banner_layout() {
    assert_eq!(
        version_banner("Ver. 13.0.1", "v1.0", "v2.0"),
        "Ver. 13.0.1\nHDR Ver. v1.0\nAssets Ver. v2.0\0"
    );
}

#[test]
fn banner_from_files_reads_both_versions() {
    let b = banner_from_files("Ver. 13.0.1", Some("1.2\n"), Some(" 3.4 "));
    assert_eq!(b.text, "Ver. 13.0.1\nHDR Ver. 1.2\nAssets Ver. 3.4\0");
    assert!(!b.warn_assets_disabled);
    let b = banner_from_files("Ver. 13.0.1", None, None);
    assert_eq!(b.text, "Ver. 13.0.1\nHDR Ver. UNKNOWN\nAssets Ver. UNKNOWN\0");
    assert!(b.warn_assets_disabled);
    let b = banner_from_files("Ver. 13.0.1", Some("1.2"), None);
    assert_eq!(b.text, "Ver. 13.0.1\nHDR Ver. 1.2\nAssets Ver. UNKNOWN\0");
    assert!(!b.warn_assets_disabled);
}

#[test]
fn law_banner_keeps_game_version_prefix() {
    let game_version = "Ver. 13.0.1";
    let b = version_banner(game_version, "a", "b");
    assert!(b.starts_with(game_version));
    assert!(b.ends_with('\0'));
}

#[test]
fn assets_warning_text() {
    assert_eq!(
        assets_disabled_warning(),
        "hdr-assets is not enabled! Please enable hdr-assets in arcropolis config."
    );
}
