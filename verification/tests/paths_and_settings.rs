//! Tests of the Path Resolver and the Settings Builder.

use chromium_swt::paths::{parse_dir_path, resolve_layout, separator, DirPath};
use chromium_swt::settings::{
    build_settings, check_settings_abi, expected_settings_size, settings_fields, FieldKind,
    LogSeverity, SettingsOptions,
};
use chromium_swt::{prepare_initialization, BridgeError, Platform};

fn parse(base: &str, p: Platform) -> DirPath {
    parse_dir_path(&base.as_bytes().to_vec(), separator(p)).expect("well-formed base dir")
}

#[test]
fn x11_layout_scenario() {
    let base = parse("/opt/app/cef-1.0", Platform::X11);
    let layout = resolve_layout(&base, &b"1.0".to_vec(), Platform::X11).unwrap();
    assert_eq!(layout.cache_dir, b"/opt/cef_cache".to_vec());
    assert_eq!(layout.locales_dir, b"/opt/app/cef-1.0/locales".to_vec());
    assert_eq!(layout.resources_dir, b"/opt/app/cef-1.0".to_vec());
    assert_eq!(layout.framework_dir, Vec::<u8>::new());
    assert_eq!(layout.log_file, b"/opt/app/cef-1.0/lib.log".to_vec());
    assert_eq!(
        layout.subprocess_executable,
        b"/opt/app/cef-1.0/chromium_subp-1.0".to_vec()
    );
}

#[test]
fn cocoa_layout_uses_bundle() {
    let base = parse("/Apps/cef/73.0", Platform::Cocoa);
    let layout = resolve_layout(&base, &b"73.0".to_vec(), Platform::Cocoa).unwrap();
    let bundle = "/Apps/cef/73.0/Chromium Embedded Framework.framework";
    assert_eq!(layout.framework_dir, bundle.as_bytes().to_vec());
    assert_eq!(
        layout.resources_dir,
        format!("{}/Resources", bundle).into_bytes()
    );
    assert_eq!(layout.locales_dir, layout.resources_dir);
    assert_eq!(layout.cache_dir, b"/Apps/cef_cache".to_vec());
    assert_eq!(
        layout.subprocess_executable,
        b"/Apps/cef/73.0/chromium_subp-73.0".to_vec()
    );
}

#[test]
fn win32_layout_uses_backslashes_and_exe() {
    let base = parse("C:\\apps\\cef", Platform::Win32);
    let layout = resolve_layout(&base, &b"7".to_vec(), Platform::Win32).unwrap();
    assert_eq!(layout.locales_dir, b"C:\\apps\\cef\\locales".to_vec());
    assert_eq!(layout.cache_dir, b"C:\\cef_cache".to_vec());
    assert_eq!(layout.resources_dir, b"C:\\apps\\cef".to_vec());
    assert_eq!(
        layout.subprocess_executable,
        b"C:\\apps\\cef\\chromium_subp-7.exe".to_vec()
    );
}

#[test]
fn malformed_base_dirs_are_rejected() {
    let sep = separator(Platform::X11);
    for bad in ["", "opt", "/opt/", "//x", "/opt//cef"] {
        let r = parse_dir_path(&bad.as_bytes().to_vec(), sep);
        assert_eq!(r.unwrap_err(), BridgeError::MalformedBaseDir, "input {:?}", bad);
    }
}

#[test]
fn shallow_base_dir_is_a_config_error_not_a_panic() {
    let base = parse("/opt", Platform::X11);
    let r = resolve_layout(&base, &b"1".to_vec(), Platform::X11);
    assert_eq!(r.unwrap_err(), BridgeError::BaseDirTooShallow);
}

#[test]
fn minimal_depth_base_dir_resolves() {
    let base = parse("/a/b", Platform::X11);
    let layout = resolve_layout(&base, &b"1".to_vec(), Platform::X11).unwrap();
    assert_eq!(layout.cache_dir, b"/cef_cache".to_vec());
}

#[test]
fn settings_size_regression() {
    // size prefix + 15 scalar fields + 12 string descriptors, each field at
    // its C alignment: on 64-bit hosts 4 bytes of padding fall between the
    // lone log-severity scalar and the 8-aligned descriptor after it
    assert_eq!(expected_settings_size(8), 360);
    // with 4-byte pointers every field is 4-aligned and nothing is padded
    assert_eq!(expected_settings_size(4), 4 + 15 * 4 + 12 * 12);
    let fields = settings_fields();
    assert_eq!(fields.len(), 27);
    assert_eq!(fields.iter().filter(|k| **k == FieldKind::Text).count(), 12);
}

#[test]
fn built_settings_carry_policy_defaults_and_computed_size() {
    let base = parse("/opt/app/cef-1.0", Platform::X11);
    let layout = resolve_layout(&base, &b"1.0".to_vec(), Platform::X11).unwrap();
    let opts = SettingsOptions::default();
    assert!(!opts.sandboxing);
    assert!(!opts.single_process);
    assert_eq!(opts.log_severity, LogSeverity::Info);
    assert!(opts.persist_cookies);
    assert!(opts.persist_preferences);
    let s = build_settings(layout, &opts, 8);
    assert_eq!(s.size, expected_settings_size(8));
    assert!(!s.multi_threaded_message_loop);
    assert!(s.external_message_pump);
    assert!(!s.windowless_rendering);
    assert!(s.persist_session_cookies);
    assert!(s.persist_user_preferences);
    assert_eq!(s.log_severity, LogSeverity::Info);
    assert_eq!(s.browser_subprocess_path, b"/opt/app/cef-1.0/chromium_subp-1.0".to_vec());
    assert_eq!(s.cache_path, b"/opt/cef_cache".to_vec());
    // the engine declarations on this host declare 360; skewed headers fire
    assert!(check_settings_abi(&s, 360).is_ok());
    assert_eq!(check_settings_abi(&s, 356).unwrap_err(), BridgeError::AbiMismatch);
}

#[test]
fn tampered_size_fails_the_abi_test() {
    let base = parse("/opt/app/cef-1.0", Platform::X11);
    let layout = resolve_layout(&base, &b"1.0".to_vec(), Platform::X11).unwrap();
    let mut s = build_settings(layout, &SettingsOptions::default(), 8);
    s.size += 1;
    assert_eq!(check_settings_abi(&s, 360).unwrap_err(), BridgeError::AbiMismatch);
}

#[test]
fn prepare_initialization_end_to_end() {
    let base = parse("/opt/app/cef-1.0", Platform::X11);
    let s = prepare_initialization(
        &base,
        &b"1.0".to_vec(),
        Platform::X11,
        &SettingsOptions::default(),
        8,
        360,
    )
    .unwrap();
    assert_eq!(s.size, 360);
    assert_eq!(s.resources_dir_path, b"/opt/app/cef-1.0".to_vec());
    assert_eq!(s.locales_dir_path, b"/opt/app/cef-1.0/locales".to_vec());
    assert_eq!(s.cache_path, b"/opt/cef_cache".to_vec());
    assert_eq!(s.framework_dir_path, Vec::<u8>::new());

    let shallow = parse("/opt", Platform::X11);
    let r = prepare_initialization(
        &shallow,
        &b"1.0".to_vec(),
        Platform::X11,
        &SettingsOptions::default(),
        8,
        360,
    );
    assert_eq!(r.unwrap_err(), BridgeError::BaseDirTooShallow);
}

#[test]
fn skewed_engine_declarations_stop_initialization() {
    // engine headers declaring a different settings-record size than the
    // builder computes: the fatal ABI condition, reported before any work
    let base = parse("/opt/app/cef-1.0", Platform::X11);
    let r = prepare_initialization(
        &base,
        &b"1.0".to_vec(),
        Platform::X11,
        &SettingsOptions::default(),
        8,
        356,
    );
    assert_eq!(r.unwrap_err(), BridgeError::AbiMismatch);
}

#[test]
fn empty_version_still_resolves_the_layout() {
    let base = parse("/opt/app/cef-1.0", Platform::X11);
    let layout = resolve_layout(&base, &Vec::new(), Platform::X11).unwrap();
    assert_eq!(
        layout.subprocess_executable,
        b"/opt/app/cef-1.0/chromium_subp-".to_vec()
    );
}
