use latest_json::{
    build_manifest, download_url, plan_installers, plan_signing, public_key_from_config, publication_date,
    select_installers, signature_from_output, signature_paths, verification_result, BundleFile,
    GenerateError, Manifest, Platform, PlatformEntry,
};

fn file(name: &str, path: &str) -> BundleFile {
    BundleFile { name: name.to_string(), path: path.to_string() }
}

#[test]
fn empty_directory_has_no_installers() {
    let files: Vec<BundleFile> = Vec::new();
    assert!(matches!(plan_installers(&files), Err(GenerateError::NoInstallersFound)));
    let only_sigs = vec![file("app.AppImage.sig", "/b/app.AppImage.sig")];
    assert!(matches!(plan_installers(&only_sigs), Err(GenerateError::NoInstallersFound)));
}

#[test]
fn end_to_end_appimage_entry() {
    let files = vec![file("app.AppImage", "/b/appimage/app.AppImage"), file("app.AppImage.sig", "/b/appimage/app.AppImage.sig")];
    let plan = plan_installers(&files).unwrap();
    assert_eq!(plan.len(), 1);
    assert_eq!(plan[0].platform, Platform::LinuxX86_64);
    assert_eq!(plan[0].signature_path, "/b/appimage/app.AppImage.sig");
    assert_eq!(plan[0].path, "/b/appimage/app.AppImage");
    let sigs = vec!["SIGX".to_string()];
    let m = build_manifest("1.0.0".to_string(), "n".to_string(), "2024-01-01T00:00:00Z".to_string(), &plan, &sigs, "https://cdn.example/");
    let e = m.platform(Platform::LinuxX86_64).unwrap();
    assert_eq!(e.signature, "SIGX");
    assert_eq!(e.url, "https://cdn.example/app.AppImage");
    assert!(m.platform(Platform::WindowsX86_64).is_none());
}

#[test]
fn missing_signature_names_the_installer() {
    let files = vec![file("app.msi", "/b/app.msi"), file("app.AppImage.sig", "/b/app.AppImage.sig")];
    assert_eq!(plan_installers(&files).err(), Some(GenerateError::SignatureNotFound("app.msi".to_string())));
}

#[test]
fn later_installer_replaces_earlier_of_same_platform() {
    let files = vec![
        file("a.exe", "/b/a.exe"),
        file("b.msi", "/b/b.msi"),
        file("a.exe.sig", "/b/a.exe.sig"),
        file("b.msi.sig", "/b/b.msi.sig"),
    ];
    let plan = plan_installers(&files).unwrap();
    assert_eq!(plan.len(), 2);
    assert_eq!(plan[0].signature_path, "/b/b.msi.sig");
    let sigs = vec!["S1".to_string(), "S2".to_string()];
    let m = build_manifest("1".to_string(), "".to_string(), "d".to_string(), &plan, &sigs, "http://h");
    let e = m.platform(Platform::WindowsX86_64).unwrap();
    assert_eq!(e.signature, "S2");
    assert_eq!(e.url, "http://h/b.msi");
}

#[test]
fn selection_keeps_installers_in_order() {
    let files = vec![file("x.dmg", "1"), file("notes.txt", "2"), file("y.AppImage", "3"), file("z.exe", "4")];
    let inst = select_installers(&files);
    let names: Vec<&str> = inst.iter().map(|f| f.name.as_str()).collect();
    assert_eq!(names, vec!["x.dmg", "y.AppImage", "z.exe"]);
    let sigs = signature_paths(&vec![file("x_aarch64.dmg.sig", "p1"), file("y.AppImage.sig", "p2")]);
    assert_eq!(sigs[Platform::DarwinAarch64.index()], Some("p1".to_string()));
    assert_eq!(sigs[Platform::LinuxX86_64.index()], Some("p2".to_string()));
    assert_eq!(sigs[Platform::WindowsX86_64.index()], None);
}

#[test]
fn download_url_joins_with_one_slash() {
    assert_eq!(download_url("https://cdn.example/", "app.AppImage"), "https://cdn.example/app.AppImage");
    assert_eq!(download_url("http://h", "app.msi"), "http://h/app.msi");
}

#[test]
fn public_key_in_either_schema() {
    let v2 = "{\"plugins\": {\"updater\": {\"pubkey\": \"KEY2\"}}}";
    let v1 = "{\"tauri\": {\"bundle\": {\"updater\": {\"pubkey\": \"KEY1\"}}}}";
    assert_eq!(public_key_from_config(v2), Ok("KEY2".to_string()));
    assert_eq!(public_key_from_config(v1), Ok("KEY1".to_string()));
    assert_eq!(public_key_from_config("{\"plugins\": {}}"), Err(GenerateError::PublicKeyNotFound));
    assert_eq!(public_key_from_config("not json"), Err(GenerateError::MalformedConfig));
}

#[test]
fn signer_output_last_nonblank_line() {
    let out = "Your file was signed successfully.\n\n  dW50cnVzdGVkIGNvbW1lbnQ=  \n\n";
    assert_eq!(signature_from_output(true, "app.msi", out, ""), Ok("dW50cnVzdGVkIGNvbW1lbnQ=".to_string()));
    assert_eq!(signature_from_output(true, "app.msi", " \n\t\n", ""), Err(GenerateError::EmptySignature));
    assert_eq!(
        signature_from_output(false, "/b/app.msi", "x", "bad key"),
        Err(GenerateError::SigningFailed("/b/app.msi".to_string(), "bad key".to_string()))
    );
}

#[test]
fn verification_outcomes() {
    assert_eq!(verification_result(true, "/b/app.msi", ""), Ok(()));
    assert_eq!(
        verification_result(false, "/b/app.msi", "invalid"),
        Err(GenerateError::VerificationFailed("/b/app.msi".to_string(), "invalid".to_string()))
    );
}

#[test]
fn publication_date_formats() {
    assert_eq!(publication_date(0), Ok("1970-01-01T00:00:00Z".to_string()));
    assert_eq!(publication_date(1431648000), Ok("2015-05-15T00:00:00Z".to_string()));
    assert_eq!(publication_date(253_402_300_799), Ok("9999-12-31T23:59:59Z".to_string()));
    assert_eq!(publication_date(i64::MAX), Err(GenerateError::InvalidTimestamp));
}

fn one_platform_manifest(notes: &str) -> Manifest {
    let mut platforms: Vec<Option<PlatformEntry>> = vec![None, None, None, None, None];
    platforms[Platform::LinuxX86_64.index()] = Some(PlatformEntry {
        signature: "sig1".to_string(),
        url: "http://h/app.AppImage".to_string(),
    });
    Manifest {
        version: "1.0.0".to_string(),
        notes: notes.to_string(),
        pub_date: "2024-05-01T10:00:00Z".to_string(),
        platforms,
    }
}

#[test]
fn pretty_text_layout() {
    let text = one_platform_manifest("x").to_json_pretty();
    let expected = "{\n  \"notes\": \"x\",\n  \"platforms\": {\n    \"linux-x86_64\": {\n      \"signature\": \"sig1\",\n      \"url\": \"http://h/app.AppImage\"\n    }\n  },\n  \"pub_date\": \"2024-05-01T10:00:00Z\",\n  \"version\": \"1.0.0\"\n}";
    assert_eq!(text, expected);
    let quoted = one_platform_manifest("say \"hi\"\n").to_json_pretty();
    assert!(quoted.contains("\"notes\": \"say \\\"hi\\\"\\n\""));
    let controls = one_platform_manifest("a\\b\u{1}\u{1f}\t\u{8}\u{c}\r\u{7f}é").to_json_pretty();
    assert!(controls.contains("\"notes\": \"a\\\\b\\u0001\\u001f\\t\\b\\f\\r\u{7f}é\""));
}

#[test]
fn pretty_text_matches_serde_json() {
    let m = one_platform_manifest("x");
    let v: serde_json::Value = serde_json::from_str(&m.to_json_pretty()).unwrap();
    assert_eq!(serde_json::to_string_pretty(&v).unwrap(), m.to_json_pretty());
}

#[test]
fn manifest_round_trip() {
    let now = chrono::Utc::now().timestamp();
    let plan_files = vec![file("app.AppImage", "/b/app.AppImage"), file("app.AppImage.sig", "/b/app.AppImage.sig")];
    let plan = plan_installers(&plan_files).unwrap();
    let date = publication_date(now).unwrap();
    let m = build_manifest("1.0.0".to_string(), "x".to_string(), date, &plan, &vec!["sig1".to_string()], "http://h");
    let v: serde_json::Value = serde_json::from_str(&m.to_json_pretty()).unwrap();
    assert_eq!(v["version"].as_str(), Some("1.0.0"));
    assert_eq!(v["notes"].as_str(), Some("x"));
    let plats = v["platforms"].as_object().unwrap();
    assert_eq!(plats.len(), 1);
    assert_eq!(v["platforms"]["linux-x86_64"]["signature"].as_str(), Some("sig1"));
    assert_eq!(v["platforms"]["linux-x86_64"]["url"].as_str(), Some("http://h/app.AppImage"));
    assert_eq!(v["platforms"]["linux-x86_64"].as_object().unwrap().len(), 2);
    let parsed = chrono::DateTime::parse_from_rfc3339(v["pub_date"].as_str().unwrap()).unwrap();
    assert!((parsed.timestamp() - chrono::Utc::now().timestamp()).abs() <= 5);
}

#[test]
fn installer_names() {
    assert!(latest_json::scan::is_installer("a.msi"));
    assert!(latest_json::scan::is_installer("a.AppImage"));
    assert!(!latest_json::scan::is_installer("a.AppImage.sig"));
    assert!(!latest_json::scan::is_installer("a.tar.gz"));
}

#[test]
fn signing_plan_names_signature_beside_installer() {
    let files = vec![file("app_aarch64.dmg", "/b/dmg/app_aarch64.dmg"), file("readme.md", "/b/readme.md")];
    let plan = plan_signing(&files).unwrap();
    assert_eq!(plan.len(), 1);
    assert_eq!(plan[0].platform, Platform::DarwinAarch64);
    assert_eq!(plan[0].name, "app_aarch64.dmg");
    assert_eq!(plan[0].path, "/b/dmg/app_aarch64.dmg");
    assert_eq!(plan[0].signature_path, "/b/dmg/app_aarch64.dmg.sig");
    let empty: Vec<BundleFile> = Vec::new();
    assert!(matches!(plan_signing(&empty), Err(GenerateError::NoInstallersFound)));
}

#[test]
fn publication_date_shape() {
    let d = publication_date(1_700_000_000).unwrap();
    assert_eq!(d.len(), 20);
    assert_eq!(d, "2023-11-14T22:13:20Z");
}
