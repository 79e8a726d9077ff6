use latest_json::{detect_platform_key, Platform};

#[test]
fn windows_suffixes_classify_as_windows() {
    assert_eq!(detect_platform_key("setup.msi"), "windows-x86_64");
    assert_eq!(detect_platform_key("app_1.0.0_x64-setup.exe"), "windows-x86_64");
    assert_eq!(detect_platform_key("arm64.exe"), "windows-x86_64");
}

#[test]
fn dmg_classifies_by_architecture() {
    assert_eq!(detect_platform_key("app_1.0.0_aarch64.dmg"), "darwin-aarch64");
    assert_eq!(detect_platform_key("app-arm64.dmg"), "darwin-aarch64");
    assert_eq!(detect_platform_key("app_1.0.0_x64.dmg"), "darwin-x86_64");
}

#[test]
fn appimage_and_other_suffixes() {
    assert_eq!(detect_platform_key("app_1.0.0_amd64.AppImage"), "linux-x86_64");
    assert_eq!(detect_platform_key("app.exe.AppImage"), "linux-x86_64");
    assert_eq!(detect_platform_key("app.deb"), "unknown");
    assert_eq!(detect_platform_key("app.AppImage.sig"), "unknown");
    assert_eq!(detect_platform_key("app.appimage"), "unknown");
    assert_eq!(detect_platform_key(""), "unknown");
}

#[test]
fn platform_enum_matches_keys() {
    assert_eq!(Platform::classify("x.msi"), Platform::WindowsX86_64);
    assert_eq!(Platform::classify("x.dmg"), Platform::DarwinX86_64);
    assert_eq!(Platform::LinuxX86_64.as_str(), "linux-x86_64");
    assert_eq!(Platform::Unknown.index(), 3);
    assert_eq!(Platform::from_index(0), Platform::DarwinAarch64);
}
