use sudachi_plugin::container::{FrozenPluginContainer, PluginContainer};
use sudachi_plugin::registry::{strip_bundled_prefix, PluginRegistry, PluginSource};

type Registry = PluginRegistry<fn(&str) -> Vec<String>, u32, &'static str, &'static str>;

fn no_paths(_s: &str) -> Vec<String> {
    Vec::new()
}

fn registry() -> Registry {
    PluginRegistry::new(no_paths)
}

#[test]
fn empty_registry() {
    let r = registry();
    assert!(r.is_empty());
    assert_eq!(r.plugin_count(), 0);
    assert!(r.iter().is_empty());
}

#[test]
fn registered_factory_is_found_and_replaced() {
    let mut r = registry();
    assert_eq!(r.factory("A"), None);
    r.register_plugin("A", "first");
    r.register_plugin("B", "other");
    assert_eq!(r.factory("A"), Some(&"first"));
    r.register_plugin("A", "second");
    assert_eq!(r.factory("A"), Some(&"second"));
    assert_eq!(r.factory("B"), Some(&"other"));
}

#[test]
fn registered_factory_takes_precedence() {
    let mut r = registry();
    r.register_plugin("com.worksap.nlp.sudachi.Foo", "f");
    assert!(matches!(r.source_of("com.worksap.nlp.sudachi.Foo"), PluginSource::Factory));
}

#[test]
fn bundled_class_gets_short_name() {
    let r = registry();
    match r.source_of("com.worksap.nlp.sudachi.ProlongedSoundMarkPlugin") {
        PluginSource::Bundled(s) => assert_eq!(s, "ProlongedSoundMarkPlugin"),
        _ => panic!("expected a bundled source"),
    }
}

#[test]
fn other_class_comes_from_shared_object() {
    let r = registry();
    assert!(matches!(r.source_of("my_plugin"), PluginSource::SharedObject));
    assert!(matches!(r.source_of("com.worksap.nlp.sudachi"), PluginSource::SharedObject));
    assert!(matches!(r.source_of("com.worksap.nlp.sudachiX"), PluginSource::SharedObject));
}

#[test]
fn prefix_stripping() {
    assert_eq!(strip_bundled_prefix("com.worksap.nlp.sudachi.X"), Some("X".to_owned()));
    assert_eq!(strip_bundled_prefix("com.worksap.nlp.sudachi."), Some(String::new()));
    assert_eq!(strip_bundled_prefix("org.example.X"), None);
    assert_eq!(strip_bundled_prefix(""), None);
}

#[test]
fn plugins_listed_by_ascending_class() {
    let mut r = registry();
    r.insert_plugin("c".to_owned(), "C");
    r.insert_plugin("a".to_owned(), "A");
    r.insert_plugin("b".to_owned(), "B");
    assert_eq!(r.plugin_count(), 3);
    assert_eq!(r.iter(), vec![&"A", &"B", &"C"]);
    assert_eq!(r.plugin(1), &"B");
}

#[test]
fn later_plugin_of_same_class_replaces_earlier() {
    let mut r = registry();
    r.insert_plugin("b".to_owned(), "old");
    r.insert_plugin("a".to_owned(), "A");
    r.insert_plugin("b".to_owned(), "new");
    assert_eq!(r.plugin_count(), 2);
    assert_eq!(r.iter(), vec![&"A", &"new"]);
}

#[test]
fn frozen_container_keeps_registry_order() {
    let mut r = registry();
    r.insert_plugin("zeta".to_owned(), "Z");
    r.insert_plugin("alpha".to_owned(), "A");
    r.insert_plugin("Beta".to_owned(), "B");
    let frozen = FrozenPluginContainer::from(r);
    assert!(!frozen.is_empty());
    assert_eq!(frozen.plugin_count(), 3);
    assert_eq!(frozen.iter(), vec![&"B", &"A", &"Z"]);
    assert_eq!(frozen.plugin(2), &"Z");
}

#[test]
fn drain_gives_plugins_in_order() {
    let mut r = registry();
    r.insert_plugin("2".to_owned(), "two");
    r.insert_plugin("1".to_owned(), "one");
    assert_eq!(r.drain(), vec!["one", "two"]);
}

#[test]
fn registry_library_cache() {
    let mut r = registry();
    assert_eq!(r.library(&vec![1, 2]), None);
    r.add_library(vec![1, 2], 9);
    assert_eq!(r.library(&vec![1, 2]), Some(&9));
}

#[test]
fn macos_registry_searches_dylib_names() {
    fn res(s: &str) -> Vec<String> {
        vec![s.to_owned()]
    }
    let r: Registry =
        PluginRegistry::with_platform(res, sudachi_plugin::naming::Platform::MacOs);
    let search = r.start_search("dir/foo");
    assert_eq!(search.candidates_tried(), &vec!["dir/foo".to_owned(), "dir/libfoo.dylib".to_owned()]);
}
