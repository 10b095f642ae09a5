use sudachi_plugin::config::PluginSettings;
use sudachi_plugin::container::{FrozenPluginContainer, PluginContainer, PluginContainers, PluginRegistries, Plugins};
use sudachi_plugin::error::{LoadError, PluginError};
use sudachi_plugin::load::{LoadAction, LoadAll};
use sudachi_plugin::registry::PluginRegistry;

type Registry = PluginRegistry<fn(&str) -> Vec<String>, u32, String, String>;

fn no_paths(_s: &str) -> Vec<String> {
    Vec::new()
}

fn class(c: &str) -> PluginSettings {
    PluginSettings::Object { class: Some(c.to_owned()) }
}

/// Runs the loading the way a host does: factories build `"{factory}:{index}"`,
/// bundled plugins exist only under the short names in `bundled`, shared
/// objects load as `"so:{class}"`, and setup fails for plugins named in `bad_setup`.
fn run(
    registry: &mut Registry,
    settings: Vec<PluginSettings>,
    bundled: &[&str],
    bad_setup: &[&str],
) -> (Vec<String>, Result<(), LoadError<String>>) {
    let mut log = Vec::new();
    let mut load = LoadAll::new(settings);
    let mut action: LoadAction<String, String> = load.next_action(registry);
    loop {
        action = match action {
            LoadAction::CallFactory { index, class } => {
                log.push(format!("factory {} {}", index, class));
                let f = registry.factory(&class).unwrap().clone();
                load.on_factory(Ok(format!("{}:{}", f, index)))
            },
            LoadAction::AskBundled { index, name } => {
                log.push(format!("bundled {} {}", index, name));
                let found = if bundled.contains(&name.as_str()) {
                    Some(format!("bundled:{}", name))
                } else {
                    None
                };
                load.on_bundled(found)
            },
            LoadAction::LoadSharedObject { index, class } => {
                log.push(format!("so {} {}", index, class));
                load.on_shared_object(Ok(format!("so:{}", class)))
            },
            LoadAction::SetUp { index, class, plugin } => {
                log.push(format!("setup {} {} {}", index, class, plugin));
                let outcome = if bad_setup.contains(&plugin.as_str()) {
                    Err(format!("cannot set up {}", plugin))
                } else {
                    Ok(())
                };
                load.on_set_up(registry, plugin, outcome)
            },
            LoadAction::Done => return (log, Ok(())),
            LoadAction::Failed(e) => return (log, Err(e)),
        }
    }
}

#[test]
fn every_source_is_used_and_plugins_end_up_sorted() {
    let mut registry: Registry = PluginRegistry::new(no_paths);
    registry.register_plugin("zz", "fz".to_owned());
    let settings = vec![
        class("zz"),
        class("com.worksap.nlp.sudachi.Known"),
        class("com.worksap.nlp.sudachi.Unknown"),
        class("plain"),
    ];
    let (log, result) = run(&mut registry, settings, &["Known"], &[]);
    assert!(result.is_ok());
    assert_eq!(
        log,
        vec![
            "factory 0 zz",
            "setup 0 zz fz:0",
            "bundled 1 Known",
            "setup 1 com.worksap.nlp.sudachi.Known bundled:Known",
            "bundled 2 Unknown",
            "so 2 com.worksap.nlp.sudachi.Unknown",
            "setup 2 com.worksap.nlp.sudachi.Unknown so:com.worksap.nlp.sudachi.Unknown",
            "so 3 plain",
            "setup 3 plain so:plain",
        ]
    );
    assert_eq!(
        registry.iter(),
        vec![
            &"bundled:Known".to_owned(),
            &"so:com.worksap.nlp.sudachi.Unknown".to_owned(),
            &"so:plain".to_owned(),
            &"fz:0".to_owned(),
        ]
    );
}

#[test]
fn same_class_twice_keeps_the_last() {
    let mut registry: Registry = PluginRegistry::new(no_paths);
    registry.register_plugin("p", "f".to_owned());
    let (_, result) = run(&mut registry, vec![class("p"), class("q"), class("p")], &[], &[]);
    assert!(result.is_ok());
    assert_eq!(registry.iter(), vec![&"f:2".to_owned(), &"so:q".to_owned()]);
}

#[test]
fn no_settings_is_done_at_once() {
    let mut registry: Registry = PluginRegistry::new(no_paths);
    let (log, result) = run(&mut registry, Vec::new(), &[], &[]);
    assert!(log.is_empty());
    assert!(result.is_ok());
    assert!(registry.is_empty());
}

#[test]
fn invalid_settings_stop_loading() {
    let mut registry: Registry = PluginRegistry::new(no_paths);
    let settings = vec![class("a"), PluginSettings::Other { text: "3".to_owned() }, class("b")];
    let (log, result) = run(&mut registry, settings, &[], &[]);
    assert_eq!(log, vec!["so 0 a", "setup 0 a so:a"]);
    match result {
        Err(LoadError::InvalidFormat(m)) => assert_eq!(m, "plugin config must be an object, was 3"),
        other => panic!("unexpected {:?}", other),
    }
    assert_eq!(registry.iter(), vec![&"so:a".to_owned()]);
}

#[test]
fn setup_failure_gets_context_and_plugin_is_dropped() {
    let mut registry: Registry = PluginRegistry::new(no_paths);
    let (_, result) = run(&mut registry, vec![class("a"), class("b")], &[], &["so:b"]);
    match result {
        Err(LoadError::WithContext { context, cause }) => {
            assert_eq!(context, "plugin b setup");
            match *cause {
                LoadError::Raised(m) => assert_eq!(m, "cannot set up so:b"),
                other => panic!("unexpected cause {:?}", other),
            }
        },
        other => panic!("unexpected {:?}", other),
    }
    assert_eq!(registry.iter(), vec![&"so:a".to_owned()]);
}

#[test]
fn factory_error_is_passed_on() {
    let mut registry: Registry = PluginRegistry::new(no_paths);
    registry.register_plugin("f", "x".to_owned());
    let mut load = LoadAll::new(vec![class("f")]);
    let action: LoadAction<String, String> = load.next_action(&registry);
    assert!(matches!(action, LoadAction::CallFactory { index: 0, .. }));
    match load.on_factory::<String, String>(Err("broken".to_owned())) {
        LoadAction::Failed(LoadError::Raised(m)) => assert_eq!(m, "broken"),
        _ => panic!("expected the factory error"),
    }
}

#[test]
fn shared_object_error_is_passed_on() {
    let mut registry: Registry = PluginRegistry::new(no_paths);
    let mut load = LoadAll::new(vec![class("x")]);
    let action: LoadAction<String, String> = load.next_action(&registry);
    assert!(matches!(action, LoadAction::LoadSharedObject { index: 0, .. }));
    let err = LoadError::Plugin(PluginError::NotFound { name: "x".to_owned(), candidates: Vec::new() });
    match load.on_shared_object::<String, String>(Err(err)) {
        LoadAction::Failed(LoadError::Plugin(PluginError::NotFound { name, .. })) => assert_eq!(name, "x"),
        _ => panic!("expected the loading error"),
    }
    assert!(registry.is_empty());
    registry.insert_plugin("y".to_owned(), "Y".to_owned());
    assert!(!registry.is_empty());
}

#[test]
fn containers_of_every_kind() {
    let mut a: Registry = PluginRegistry::new(no_paths);
    a.insert_plugin("k".to_owned(), "K".to_owned());
    let b: Registry = PluginRegistry::new(no_paths);
    let all = PluginContainers::new(
        FrozenPluginContainer::from(a),
        FrozenPluginContainer::from(b),
        FrozenPluginContainer::from(PluginRegistry::<fn(&str) -> Vec<String>, u32, (), u8>::new(no_paths)),
        FrozenPluginContainer::from(PluginRegistry::<fn(&str) -> Vec<String>, u32, (), u16>::new(no_paths)),
    );
    assert_eq!(all.connect_cost().iter(), vec![&"K".to_owned()]);
    assert!(all.input_text().is_empty());
    assert!(all.oov().is_empty());
    assert!(all.path_rewrite().is_empty());

    let regs = PluginRegistries::new(1u8, 2u16, 3u32, 4u64);
    assert_eq!(*regs.connect_cost(), 1);
    assert_eq!(*regs.input_text(), 2);
    assert_eq!(*regs.oov(), 3);
    assert_eq!(*regs.path_rewrite(), 4);
}
