use std::path::Path;

use sudachi_plugin::name_order::{name_eq, name_lt};
use sudachi_plugin::naming::{
    macos, make_system_specific_name, platform_library_file_name, system_specific_name,
    system_specific_name_for, windows, Platform,
};

/// The variant computed directly with the standard library's path handling.
fn variant_by_std_path(s: &str) -> Option<String> {
    variant_by_std_path_with(s, "so")
}

fn variant_by_std_path_with(s: &str, ext: &str) -> Option<String> {
    if s.contains('.') {
        None
    } else {
        let p = Path::new(s);
        let fname = p.file_name().and_then(|np| np.to_str()).map(|c| format!("lib{}.{}", c, ext));
        let parent = p.parent().and_then(|np| np.to_str());
        match (parent, fname) {
            (Some(p), Some(c)) => Some(format!("{}/{}", p, c)),
            _ => None,
        }
    }
}

fn all_strings(alphabet: &[char], max_len: usize) -> Vec<String> {
    let mut out = vec![String::new()];
    let mut last = vec![String::new()];
    for _ in 0..max_len {
        let mut next = Vec::new();
        for s in &last {
            for c in alphabet {
                let mut t = s.clone();
                t.push(*c);
                next.push(t);
            }
        }
        out.extend(next.iter().cloned());
        last = next;
    }
    out
}

#[test]
fn unix_library_name() {
    assert_eq!(make_system_specific_name("foo"), "libfoo.so");
    assert_eq!(make_system_specific_name(""), "lib.so");
}

#[test]
fn windows_library_name() {
    assert_eq!(windows::make_system_specific_name("foo"), "foo.dll");
}

#[test]
fn macos_library_name() {
    assert_eq!(macos::make_system_specific_name("foo"), "libfoo.dylib");
}

#[test]
fn variant_keeps_directory() {
    assert_eq!(system_specific_name("plugins/foo"), Some("plugins/libfoo.so".to_owned()));
    assert_eq!(system_specific_name("/opt/x/foo"), Some("/opt/x/libfoo.so".to_owned()));
}

#[test]
fn variant_of_bare_name() {
    assert_eq!(system_specific_name("foo"), Some("/libfoo.so".to_owned()));
}

#[test]
fn dotted_name_has_no_variant() {
    assert_eq!(system_specific_name("libfoo.so"), None);
    assert_eq!(system_specific_name("com.example.Plugin"), None);
    assert_eq!(system_specific_name("."), None);
}

#[test]
fn name_without_file_has_no_variant() {
    assert_eq!(system_specific_name(""), None);
    assert_eq!(system_specific_name("/"), None);
    assert_eq!(system_specific_name("///"), None);
}

#[test]
fn separators_are_collapsed_like_std_paths() {
    assert_eq!(system_specific_name("a//b/"), Some("a/libb.so".to_owned()));
    assert_eq!(system_specific_name("/b"), Some("//libb.so".to_owned()));
    assert_eq!(system_specific_name("//b"), Some("//libb.so".to_owned()));
    assert_eq!(system_specific_name("b/"), Some("/libb.so".to_owned()));
}

#[test]
fn variant_agrees_with_std_paths() {
    for s in all_strings(&['a', '/', 'é', '.'], 5) {
        assert_eq!(system_specific_name(&s), variant_by_std_path(&s), "input {:?}", s);
    }
}

#[test]
fn name_order_agrees_with_string_order() {
    let names = all_strings(&['a', 'b', 'é', '\u{10000}'], 3);
    for a in &names {
        for b in &names {
            assert_eq!(name_lt(a, b), a < b, "{:?} {:?}", a, b);
            assert_eq!(name_eq(a, b), a == b, "{:?} {:?}", a, b);
        }
    }
}

#[test]
fn platform_library_names() {
    assert_eq!(platform_library_file_name(Platform::LinuxFreeBsd, "foo"), "libfoo.so");
    assert_eq!(platform_library_file_name(Platform::MacOs, "foo"), "libfoo.dylib");
}

#[test]
fn macos_variant() {
    assert_eq!(
        system_specific_name_for(Platform::MacOs, "plugins/foo"),
        Some("plugins/libfoo.dylib".to_owned())
    );
    assert_eq!(system_specific_name_for(Platform::MacOs, "foo.dylib"), None);
}

#[test]
fn macos_variant_agrees_with_std_paths() {
    for s in all_strings(&['a', '/', '.'], 5) {
        assert_eq!(
            system_specific_name_for(Platform::MacOs, &s),
            variant_by_std_path_with(&s, "dylib"),
            "input {:?}",
            s
        );
    }
}
