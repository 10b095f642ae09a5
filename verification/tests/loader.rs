use sudachi_plugin::error::PluginError;
use sudachi_plugin::loader::{DsoSearch, LibraryStep, PluginLoader, SearchAction};
use sudachi_plugin::naming::Platform;

fn under_res(s: &str) -> Vec<String> {
    vec![format!("/res/{}", s)]
}

fn twice(s: &str) -> Vec<String> {
    vec![format!("/a/{}", s), format!("/b/{}", s)]
}

#[test]
fn candidates_of_plain_name() {
    let loader: PluginLoader<fn(&str) -> Vec<String>, u32> = PluginLoader::new(under_res);
    assert_eq!(loader.resolve_dso_names("foo"), vec!["/res/foo".to_owned(), "/res//libfoo.so".to_owned()]);
}

#[test]
fn candidates_of_file_name() {
    let loader: PluginLoader<fn(&str) -> Vec<String>, u32> = PluginLoader::new(twice);
    assert_eq!(
        loader.resolve_dso_names("libfoo.so"),
        vec!["/a/libfoo.so".to_owned(), "/b/libfoo.so".to_owned()]
    );
}

#[test]
fn library_cache_read_after_write() {
    let mut loader: PluginLoader<fn(&str) -> Vec<String>, u32> = PluginLoader::new(under_res);
    assert_eq!(loader.library(&b"/x/liba.so".to_vec()), None);
    loader.add_library(b"/x/liba.so".to_vec(), 1);
    loader.add_library(b"/x/libb.so".to_vec(), 2);
    assert_eq!(loader.library(&b"/x/liba.so".to_vec()), Some(&1));
    assert_eq!(loader.library(&b"/x/libb.so".to_vec()), Some(&2));
    assert_eq!(loader.library(&b"/x/libc.so".to_vec()), None);
}

#[test]
fn search_probes_in_order_and_stops_at_first_found() {
    let loader: PluginLoader<fn(&str) -> Vec<String>, u32> = PluginLoader::new(twice);
    let mut search = DsoSearch::start(&loader, "libfoo.so");
    match search.next_action() {
        SearchAction::Probe(p) => assert_eq!(p, "/a/libfoo.so"),
        _ => panic!("expected a probe"),
    }
    match search.probed(None) {
        SearchAction::Probe(p) => assert_eq!(p, "/b/libfoo.so"),
        _ => panic!("expected a probe"),
    }
    match search.probed(Some(b"/real/libfoo.so".to_vec())) {
        SearchAction::Located(p) => assert_eq!(p, b"/real/libfoo.so".to_vec()),
        _ => panic!("expected the located path"),
    }
}

#[test]
fn search_reports_every_candidate_when_nothing_exists() {
    let loader: PluginLoader<fn(&str) -> Vec<String>, u32> = PluginLoader::new(under_res);
    let mut search = DsoSearch::start(&loader, "foo");
    assert_eq!(search.candidates_tried(), &vec!["/res/foo".to_owned(), "/res//libfoo.so".to_owned()]);
    assert!(matches!(search.next_action(), SearchAction::Probe(_)));
    assert!(matches!(search.probed(None), SearchAction::Probe(_)));
    match search.probed(None) {
        SearchAction::NotFound(PluginError::NotFound { name, candidates }) => {
            assert_eq!(name, "foo");
            assert_eq!(candidates, vec!["/res/foo".to_owned(), "/res//libfoo.so".to_owned()]);
        },
        _ => panic!("expected not found"),
    }
}

#[test]
fn search_without_candidates_fails_at_once() {
    fn nothing(_s: &str) -> Vec<String> {
        Vec::new()
    }
    let loader: PluginLoader<fn(&str) -> Vec<String>, u32> = PluginLoader::new(nothing);
    let search = DsoSearch::start(&loader, "foo");
    assert!(matches!(
        search.next_action(),
        SearchAction::NotFound(PluginError::NotFound { .. })
    ));
}

#[test]
fn macos_loader_tries_dylib_names() {
    let loader: PluginLoader<fn(&str) -> Vec<String>, u32> =
        PluginLoader::with_platform(under_res, Platform::MacOs);
    assert_eq!(
        loader.resolve_dso_names("foo"),
        vec!["/res/foo".to_owned(), "/res//libfoo.dylib".to_owned()]
    );
}

#[test]
fn search_with_no_usable_candidate_probes_all_then_fails() {
    let loader: PluginLoader<fn(&str) -> Vec<String>, u32> = PluginLoader::new(twice);
    let mut search = DsoSearch::start(&loader, "plugin");
    let mut probed = Vec::new();
    let mut action = search.next_action();
    loop {
        match action {
            SearchAction::Probe(p) => {
                probed.push(p);
                action = search.probed(None);
            },
            SearchAction::Located(_) => panic!("nothing is usable"),
            SearchAction::NotFound(_) => break,
        }
    }
    assert_eq!(
        probed,
        vec![
            "/a/plugin".to_owned(),
            "/b/plugin".to_owned(),
            "/a//libplugin.so".to_owned(),
            "/b//libplugin.so".to_owned(),
        ]
    );
}

#[test]
fn located_file_is_opened_once_then_reused() {
    let mut loader: PluginLoader<fn(&str) -> Vec<String>, u32> = PluginLoader::new(under_res);
    let path = b"/lib/libp.so".to_vec();
    match loader.library_step(path.clone()) {
        LibraryStep::Open(p) => {
            assert_eq!(p, path);
            loader.add_library(p, 42);
        },
        LibraryStep::Cached(_) => panic!("nothing was opened yet"),
    }
    match loader.library_step(path.clone()) {
        LibraryStep::Cached(l) => assert_eq!(*l, 42),
        LibraryStep::Open(_) => panic!("the library is kept"),
    }
    assert!(matches!(loader.library_step(b"/lib/other.so".to_vec()), LibraryStep::Open(_)));
}
