//! Exact expected values for the verified text building, the sandbox's
//! append-only behaviour, and artifact naming.

use gromnie_scripts::artifact::{is_expected_artifact, map_dashes, wasm_artifact_name};
use gromnie_scripts::sandbox::Sandbox;
use gromnie_scripts::text::{format_chat_line, u32_to_dec, u64_to_dec};

#[test]
fn decimal_rendering_matches_expected_values() {
    assert_eq!(u64_to_dec(0).as_str(), "0");
    assert_eq!(u64_to_dec(7).as_str(), "7");
    assert_eq!(u64_to_dec(10).as_str(), "10");
    assert_eq!(u64_to_dec(1234567890).as_str(), "1234567890");
    assert_eq!(u64_to_dec(u64::MAX).as_str(), "18446744073709551615");
    assert_eq!(u32_to_dec(305).as_str(), "305");
}

#[test]
fn chat_line_has_the_documented_format() {
    assert_eq!(format_chat_line(42, 7, "hi").as_str(), "[42] [channel:7] hi\n");
    assert_eq!(
        format_chat_line(1700000000123, 0, "").as_str(),
        "[1700000000123] [channel:0] \n"
    );
}

#[test]
fn sandbox_appends_preserve_prior_content() {
    let mut sandbox = Sandbox::new(true);
    let h = sandbox.open_append("/script_data/chat.log").unwrap();
    sandbox.append(h, "a\n");
    sandbox.append(h, "b\n");
    assert_eq!(sandbox.content(h).as_str(), "a\nb\n");

    // Reopening in append mode finds the same file with its content intact.
    let h2 = sandbox.open_append("/script_data/chat.log").unwrap();
    assert_eq!(h2, h);
    assert_eq!(sandbox.file_count(), 1);
    assert_eq!(sandbox.content(h2).as_str(), "a\nb\n");

    sandbox.append(h2, "c\n");
    assert_eq!(sandbox.content(h2).as_str(), "a\nb\nc\n");
}

#[test]
fn sandbox_without_root_opens_nothing() {
    let mut sandbox = Sandbox::new(false);
    assert!(!sandbox.is_available());
    assert!(sandbox.open_append("/script_data/chat.log").is_none());
    assert_eq!(sandbox.file_count(), 0);
}

#[test]
fn sandbox_keeps_distinct_paths_apart() {
    let mut sandbox = Sandbox::new(true);
    let a = sandbox.open_append("/script_data/a.log").unwrap();
    let b = sandbox.open_append("/script_data/b.log").unwrap();
    assert_ne!(a, b);
    sandbox.append(a, "only a");
    assert_eq!(sandbox.content(a).as_str(), "only a");
    assert_eq!(sandbox.content(b).as_str(), "");
}

#[test]
fn artifact_names_map_hyphens_to_underscores() {
    assert_eq!(map_dashes("file-logger").as_str(), "file_logger");
    assert_eq!(map_dashes("echo").as_str(), "echo");
    assert_eq!(wasm_artifact_name("file-logger").as_str(), "file_logger.wasm");
    assert_eq!(wasm_artifact_name("auto-login").as_str(), "auto_login.wasm");
    assert_eq!(wasm_artifact_name("hello-world").as_str(), "hello_world.wasm");
}

#[test]
fn installer_copies_only_expected_artifacts() {
    let scripts = vec![
        "auto-login".to_string(),
        "echo".to_string(),
        "file-logger".to_string(),
        "hello-world".to_string(),
    ];
    assert!(is_expected_artifact("auto_login.wasm", &scripts));
    assert!(is_expected_artifact("echo.wasm", &scripts));
    assert!(is_expected_artifact("file_logger.wasm", &scripts));
    assert!(!is_expected_artifact("xtask.wasm", &scripts));
    assert!(!is_expected_artifact("file-logger.wasm", &scripts));
    assert!(!is_expected_artifact("file_logger", &scripts));
}
