use lean_rs::host::elaboration::options::DEFAULT_FILE_LABEL;
use lean_rs::host::meta::{LeanMetaOptions, LeanMetaTransparency};
use lean_rs::{
    LeanElabOptions, LEAN_DIAGNOSTIC_BYTE_LIMIT_DEFAULT, LEAN_DIAGNOSTIC_BYTE_LIMIT_MAX,
    LEAN_ERROR_MESSAGE_LIMIT, LEAN_HEARTBEAT_LIMIT_DEFAULT, LEAN_HEARTBEAT_LIMIT_MAX,
};

#[test]
fn defaults_match_published_constants() {
    let opts = LeanElabOptions::new();
    assert_eq!(opts.heartbeats(), LEAN_HEARTBEAT_LIMIT_DEFAULT);
    assert_eq!(opts.diagnostic_byte_limit_usize(), LEAN_DIAGNOSTIC_BYTE_LIMIT_DEFAULT);
    assert_eq!(opts.namespace_context_str(), "");
    assert_eq!(opts.file_label_str(), DEFAULT_FILE_LABEL);
    assert_eq!(LEAN_HEARTBEAT_LIMIT_DEFAULT, 200_000);
    assert_eq!(LEAN_DIAGNOSTIC_BYTE_LIMIT_DEFAULT, 65_536);
    assert_eq!(LeanElabOptions::default().file_label_str(), "<elaborate>");
}

#[test]
fn heartbeat_setter_saturates_at_max() {
    let opts = LeanElabOptions::new().heartbeat_limit(u64::MAX);
    assert_eq!(opts.heartbeats(), LEAN_HEARTBEAT_LIMIT_MAX);
    assert_eq!(LeanElabOptions::new().heartbeat_limit(7).heartbeats(), 7);
}

#[test]
fn diagnostic_byte_limit_setter_saturates_at_max() {
    let opts = LeanElabOptions::new().diagnostic_byte_limit(usize::MAX);
    assert_eq!(opts.diagnostic_byte_limit_usize(), LEAN_DIAGNOSTIC_BYTE_LIMIT_MAX);
    assert_eq!(LeanElabOptions::new().diagnostic_byte_limit(1).diagnostic_byte_limit_usize(), 1);
}

#[test]
fn string_setters_bound_input() {
    let long = "x".repeat(LEAN_ERROR_MESSAGE_LIMIT * 2);
    let opts = LeanElabOptions::new().namespace_context(&long).file_label(&long);
    assert!(opts.namespace_context_str().len() <= LEAN_ERROR_MESSAGE_LIMIT);
    assert!(opts.file_label_str().len() <= LEAN_ERROR_MESSAGE_LIMIT);
    let opts = opts.namespace_context("Foo.Bar").file_label("a.lean");
    assert_eq!(opts.clone().namespace_context_str(), "Foo.Bar");
    assert_eq!(opts.file_label_str(), "a.lean");
}

#[test]
fn options_defaults_match_published_constants() {
    let opts = LeanMetaOptions::new();
    assert_eq!(opts.heartbeats(), LEAN_HEARTBEAT_LIMIT_DEFAULT);
    assert_eq!(opts.diagnostic_byte_limit_usize(), LEAN_DIAGNOSTIC_BYTE_LIMIT_DEFAULT);
    assert_eq!(opts.namespace_context_str(), "");
    assert_eq!(opts.transparency_byte(), 0);
}

#[test]
fn options_heartbeat_setter_saturates_at_max() {
    let opts = LeanMetaOptions::new().heartbeat_limit(u64::MAX);
    assert_eq!(opts.heartbeats(), LEAN_HEARTBEAT_LIMIT_MAX);
}

#[test]
fn options_diagnostic_byte_limit_setter_saturates_at_max() {
    let opts = LeanMetaOptions::new().diagnostic_byte_limit(usize::MAX);
    assert_eq!(opts.diagnostic_byte_limit_usize(), LEAN_DIAGNOSTIC_BYTE_LIMIT_MAX);
}

#[test]
fn namespace_context_bounded() {
    let long = "x".repeat(LEAN_ERROR_MESSAGE_LIMIT * 2);
    let opts = LeanMetaOptions::new().namespace_context(&long);
    assert!(opts.namespace_context_str().len() <= LEAN_ERROR_MESSAGE_LIMIT);
}

#[test]
fn transparency_byte_matches_lean_constructor_order() {
    assert_eq!(LeanMetaTransparency::Default.as_byte(), 0);
    assert_eq!(LeanMetaTransparency::Reducible.as_byte(), 1);
    assert_eq!(LeanMetaTransparency::Instances.as_byte(), 2);
    assert_eq!(LeanMetaTransparency::All.as_byte(), 3);
    let opts = LeanMetaOptions::default().transparency(LeanMetaTransparency::All);
    assert_eq!(opts.transparency_byte(), 3);
}
