use bana::output_validator::{abi_of, check_apk_entries, validate_apk_contents, ValidationError};
use std::io::{Cursor, Write};

/// A real ZIP archive in memory with the given entries.
fn test_apk(entries: &[(&str, &[u8])]) -> Vec<u8> {
    let mut zip = zip::ZipWriter::new(Cursor::new(Vec::new()));
    let options = zip::write::FileOptions::default();
    for (name, content) in entries {
        zip.start_file(*name, options).unwrap();
        zip.write_all(content).unwrap();
    }
    zip.finish().unwrap().into_inner()
}

/// Validates bytes as if they had been read from `path`.
fn validate_bytes(
    path: &str,
    bytes: Vec<u8>,
    expected_abis: &[&str],
) -> Result<bana::output_validator::ApkReport, ValidationError> {
    let size = bytes.len() as u64;
    validate_apk_contents(path, Some(size), Ok(bytes), expected_abis)
}

#[test]
fn reports_not_found_for_missing_file() {
    let result = validate_apk_contents(
        "/tmp/does-not-exist-bana-test.apk",
        None,
        Err("No such file or directory".to_string()),
        &[],
    );
    assert!(matches!(result, Err(ValidationError::NotFound { .. })));
}

#[test]
fn reports_empty_for_zero_byte_file() {
    let result = validate_bytes("bana-test-empty.apk", Vec::new(), &[]);
    assert!(matches!(result, Err(ValidationError::Empty { .. })));
}

#[test]
fn reports_missing_manifest_when_absent() {
    let apk = test_apk(&[("classes.dex", b"fake")]);
    let result = validate_bytes("bana-test-no-manifest.apk", apk, &[]);
    assert!(matches!(
        result,
        Err(ValidationError::MissingEntry { entry }) if entry == "AndroidManifest.xml"
    ));
}

#[test]
fn reports_missing_dex_when_absent() {
    let apk = test_apk(&[("AndroidManifest.xml", b"fake")]);
    let result = validate_bytes("bana-test-no-dex.apk", apk, &[]);
    assert!(matches!(
        result,
        Err(ValidationError::MissingEntry { entry }) if entry == "classes.dex"
    ));
}

#[test]
fn reports_missing_abi_when_requested_abi_absent() {
    let apk = test_apk(&[
        ("AndroidManifest.xml", b"fake"),
        ("classes.dex", b"fake"),
        ("lib/arm64-v8a/libmobile_core.so", b"fake"),
    ]);
    let result = validate_bytes("bana-test-missing-abi.apk", apk, &["arm64-v8a", "x86_64"]);
    assert!(matches!(
        result,
        Err(ValidationError::MissingAbi { abi }) if abi == "x86_64"
    ));
}

#[test]
fn skips_abi_check_when_none_expected() {
    let apk = test_apk(&[("AndroidManifest.xml", b"fake"), ("classes.dex", b"fake")]);
    let result = validate_bytes("bana-test-no-abi-required.apk", apk, &[]);
    assert!(result.is_ok());
}

#[test]
fn succeeds_and_reports_all_abis_present() {
    let apk = test_apk(&[
        ("AndroidManifest.xml", b"fake"),
        ("classes.dex", b"fake"),
        ("lib/arm64-v8a/libmobile_core.so", b"fake"),
        ("lib/armeabi-v7a/libmobile_core.so", b"fake"),
        ("lib/x86_64/libmobile_core.so", b"fake"),
        ("lib/x86/libmobile_core.so", b"fake"),
    ]);
    let report =
        validate_bytes("bana-test-valid.apk", apk, &["arm64-v8a", "armeabi-v7a", "x86_64", "x86"])
            .unwrap();
    assert!(report.has_manifest);
    assert!(report.has_dex);
    assert_eq!(report.abis_present.len(), 4);
    assert_eq!(report.entry_count, 6);
    assert!(report.size_bytes > 0);
}

#[test]
fn reports_not_a_zip_for_garbage_content() {
    let bytes = b"this is definitely not a zip file, just plain garbage bytes".to_vec();
    let result = validate_bytes("bana-test-garbage.apk", bytes, &[]);
    assert!(matches!(result, Err(ValidationError::NotAZip { .. })));
}

#[test]
fn open_failure_is_reported_as_not_a_zip() {
    let result = validate_apk_contents("x.apk", Some(10), Err("permission denied".to_string()), &[]);
    match result {
        Err(ValidationError::NotAZip { path, reason }) => {
            assert_eq!(path, "x.apk");
            assert_eq!(reason, "permission denied");
        }
        other => panic!("expected NotAZip, got {other:?}"),
    }
}

#[test]
fn abis_are_listed_once_in_first_appearance_order() {
    let names: Vec<String> = [
        "AndroidManifest.xml",
        "classes2.dex",
        "lib/x86/a.so",
        "lib/arm64-v8a/a.so",
        "lib/x86/b.so",
        "lib/noslash",
    ]
    .iter()
    .map(|s| s.to_string())
    .collect();
    let report = check_apk_entries("p.apk", 9, &names, &["arm64-v8a"]).unwrap();
    assert_eq!(report.abis_present, vec!["x86", "arm64-v8a"]);
    assert_eq!(report.entry_count, 6);
    assert_eq!(abi_of("lib/x86/a.so").as_deref(), Some("x86"));
    assert_eq!(abi_of("lib/noslash"), None);
    assert_eq!(abi_of("assets/lib/x86/a.so"), None);
    assert_eq!(abi_of("lib/x86/README.txt"), None);
}

#[test]
fn an_abi_folder_without_a_shared_library_does_not_count() {
    let apk = test_apk(&[
        ("AndroidManifest.xml", b"fake"),
        ("classes.dex", b"fake"),
        ("lib/x86/README.txt", b"fake"),
    ]);
    let result = validate_bytes("bana-test-readme-only.apk", apk, &["x86"]);
    assert!(matches!(
        result,
        Err(ValidationError::MissingAbi { abi }) if abi == "x86"
    ));
}

#[test]
fn validation_messages_match_their_display() {
    assert_eq!(
        ValidationError::MissingAbi { abi: "x86".to_string() }.message(),
        "APK is missing native library for ABI 'x86' (expected under lib/x86/)"
    );
    assert_eq!(ValidationError::Empty { path: "a.apk".to_string() }.message(), "APK at a.apk is empty (0 bytes)");
}
