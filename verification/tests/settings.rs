use sudachi_plugin::config::{extract_plugin_class, PluginSettings};
use sudachi_plugin::container::{fail_in, next_kind, PluginKind};
use sudachi_plugin::error::{LoadError, PluginError};

#[test]
fn class_is_read_from_object() {
    let v = PluginSettings::Object { class: Some("com.example.Plugin".to_owned()) };
    match extract_plugin_class::<()>(&v) {
        Ok(c) => assert_eq!(c, "com.example.Plugin"),
        Err(e) => panic!("unexpected error {:?}", e),
    }
}

#[test]
fn non_object_settings_are_rejected() {
    let v = PluginSettings::Other { text: "[1,2]".to_owned() };
    match extract_plugin_class::<()>(&v) {
        Err(LoadError::InvalidFormat(m)) => {
            assert_eq!(m, "plugin config must be an object, was [1,2]")
        },
        other => panic!("unexpected {:?}", other),
    }
}

#[test]
fn settings_without_class_are_rejected() {
    let v = PluginSettings::Object { class: None };
    match extract_plugin_class::<()>(&v) {
        Err(LoadError::InvalidFormat(m)) => {
            assert_eq!(m, "plugin config must have 'class' key to indicate plugin SO file")
        },
        other => panic!("unexpected {:?}", other),
    }
}

#[test]
fn context_wraps_error() {
    let e: LoadError<u8> = LoadError::Raised(7);
    match e.with_context("oov".to_owned()) {
        LoadError::WithContext { context, cause } => {
            assert_eq!(context, "oov");
            assert!(matches!(*cause, LoadError::Raised(7)));
        },
        other => panic!("unexpected {:?}", other),
    }
}

#[test]
fn kind_names() {
    assert_eq!(PluginKind::ConnectCost.name(), "connect_cost");
    assert_eq!(PluginKind::InputText.name(), "input_text");
    assert_eq!(PluginKind::Oov.name(), "oov");
    assert_eq!(PluginKind::PathRewrite.name(), "path_rewrite");
}

#[test]
fn loading_error_without_message() {
    match PluginError::from(libloading::Error::DlOpenUnknown) {
        PluginError::Libloading { source, message } => {
            assert!(matches!(source, libloading::Error::DlOpenUnknown));
            assert_eq!(message, "");
        },
        other => panic!("unexpected {:?}", other),
    }
}

#[test]
fn open_failure_lists_candidates() {
    let candidates = vec!["a/libx.so".to_owned(), "b \"q\"".to_owned()];
    match PluginError::open_failure(libloading::Error::DlOpenUnknown, &candidates) {
        PluginError::Libloading { message, .. } => {
            assert_eq!(message, "failed to load library from: [\"a/libx.so\", \"b \\\"q\\\"\"]");
        },
        other => panic!("unexpected {:?}", other),
    }
}

#[test]
fn missing_entry_point_names_path() {
    match PluginError::missing_entry_point(libloading::Error::DlSymUnknown, "\"/lib/libx.so\"") {
        PluginError::Libloading { source, message } => {
            assert!(matches!(source, libloading::Error::DlSymUnknown));
            assert_eq!(message, "no load_plugin symbol in \"/lib/libx.so\"");
        },
        other => panic!("unexpected {:?}", other),
    }
}

#[test]
fn kinds_load_in_order() {
    let mut seen = Vec::new();
    let mut done = None;
    while let Some(k) = next_kind(done) {
        seen.push(k.name());
        done = Some(k);
    }
    assert_eq!(seen, vec!["connect_cost", "input_text", "oov", "path_rewrite"]);
}

#[test]
fn failure_names_its_kind() {
    match fail_in(PluginKind::Oov, LoadError::<u8>::Raised(3)) {
        LoadError::WithContext { context, cause } => {
            assert_eq!(context, "oov");
            assert!(matches!(*cause, LoadError::Raised(3)));
        },
        other => panic!("unexpected {:?}", other),
    }
}
