//! Properties of the library as a whole, stated over the models that the
//! functions' contracts use.

use vstd::prelude::*;
use vstd::string::*;

use crate::config::{plugin_class_of, PluginSettings};
use crate::keyed::{has_key, keyed_map, lemma_keyed_map_at, lemma_keyed_map_size};
use crate::load::{chosen, LoadAction, LoadStage};
use crate::loader::{probe_step, resolved_names, DsoSearch, PluginLoader};
use crate::naming::macos::macos_library_file_name;
use crate::naming::windows::windows_library_file_name;
use crate::naming::{
    component_start,
    root_len,
    library_file_name,
    system_specific_name_on,
    trim_trailing_separators,
    Platform,
};
use crate::registry::{bundled_name_of, bundled_prefix, source_for, PluginRegistry, PluginSource};

verus! {

/// The short name under which a bundled plugin is looked up is its class
/// name without the bundled prefix: `com.worksap.nlp.sudachi.X` gives `X`.
pub proof fn law_bundled_prefix_is_stripped(short: Seq<char>)
    ensures
        bundled_name_of(bundled_prefix() + short) == Some(short),
{
    let c = bundled_prefix() + short;
    let n = bundled_prefix().len() as int;
    assert(c.subrange(0, n) =~= bundled_prefix());
    assert(c.subrange(n, c.len() as int) =~= short);
}

/// A plugin name that holds a `.` is taken as a file name: it has no
/// variant on any platform.
pub proof fn law_dotted_name_has_no_variant(platform: Platform, s: Seq<char>)
    requires
        s.contains('.'),
    ensures
        system_specific_name_on(platform, s) is None,
{
}

/// With a suffix `f` that holds no separator, the last component starts
/// where it starts in the prefix.
proof fn lemma_component_start_skips_name(p: Seq<char>, f: Seq<char>, floor: int)
    requires
        0 <= floor <= p.len(),
        !f.contains('/'),
    ensures
        component_start(p + f, floor) == component_start(p, floor),
    decreases f.len(),
{
    if f.len() == 0 {
        assert(p + f =~= p);
    } else {
        let t = p + f;
        assert(t.last() == f.last());
        assert(f[f.len() - 1] == f.last());
        assert(t.drop_last() =~= p + f.drop_last());
        assert(!f.drop_last().contains('/')) by {
            if f.drop_last().contains('/') {
                let i = choose|i: int| 0 <= i < f.drop_last().len() && f.drop_last()[i] == '/';
                assert(f[i] == '/');
            }
        }
        lemma_component_start_skips_name(p, f.drop_last(), floor);
    }
}

/// `a + b` holds no `.` when neither `a` nor `b` does.
proof fn lemma_no_dot_concat(a: Seq<char>, b: Seq<char>)
    requires
        !a.contains('.'),
        !b.contains('.'),
    ensures
        !(a + b).contains('.'),
{
    if (a + b).contains('.') {
        let i = choose|i: int| 0 <= i < (a + b).len() && (a + b)[i] == '.';
        if i < a.len() {
            assert(a[i] == '.');
        } else {
            assert(b[i - a.len()] == '.');
        }
    }
}

/// A plain plugin name `dir/name` (no `.`, `name` without separators, `dir`
/// not ending in a separator) has the variant `dir/{library file name}`,
/// such as `dir/libname.so`: the file name becomes the platform's library
/// file name, the directory stays.
pub proof fn law_variant_keeps_directory(platform: Platform, dir: Seq<char>, name: Seq<char>)
    requires
        dir.len() > 0,
        dir.last() != '/',
        name.len() > 0,
        !name.contains('/'),
        !dir.contains('.'),
        !name.contains('.'),
    ensures
        system_specific_name_on(platform, dir + seq!['/'] + name) == Some(
            dir + seq!['/'] + library_file_name(platform, name),
        ),
{
    let p = dir + seq!['/'];
    let s = p + name;
    assert(dir + seq!['/'] + name =~= s);
    let floor = root_len(s);
    assert(s[0] == dir[0]);
    assert(floor == root_len(dir));
    assert(floor < dir.len()) by {
        if floor == 1 {
            assert(dir[0] == '/');
            if dir.len() == 1 {
                assert(dir.last() == dir[0]);
            }
        }
    }
    // the path has no trailing separator
    assert(s.last() == name.last());
    assert(name.last() == name[name.len() - 1]);
    assert(trim_trailing_separators(s, floor) == s);
    // its last component starts right after the separator
    lemma_component_start_skips_name(p, name, floor);
    assert(p.last() == '/');
    assert(component_start(p, floor) == p.len());
    // the parent is `dir`
    assert(s.subrange(0, p.len() as int) =~= p);
    assert(p.drop_last() =~= dir);
    assert(trim_trailing_separators(dir, floor) == dir);
    assert(trim_trailing_separators(p, floor) == dir);
    assert(s.subrange(p.len() as int, s.len() as int) =~= name);
    lemma_no_dot_concat(dir, seq!['/']);
    lemma_no_dot_concat(p, name);
}

/// A plain plugin name without directory or `.` has the variant
/// `/{library file name}`, such as `/lib{name}.so`: its parent is empty, and
/// the two are joined by a separator.
pub proof fn law_variant_of_bare_name(platform: Platform, name: Seq<char>)
    requires
        name.len() > 0,
        !name.contains('/'),
        !name.contains('.'),
    ensures
        system_specific_name_on(platform, name) == Some(seq!['/'] + library_file_name(platform, name)),
{
    let empty = Seq::<char>::empty();
    assert(name[0] != '/') by {
        if name[0] == '/' {
            assert(name.contains('/'));
        }
    }
    assert(root_len(name) == 0);
    assert(name.last() == name[name.len() - 1]);
    assert(trim_trailing_separators(name, 0) == name);
    assert(empty + name =~= name);
    lemma_component_start_skips_name(empty, name, 0);
    assert(name.subrange(0, 0) =~= empty);
    assert(name.subrange(0, name.len() as int) =~= name);
    assert(empty + seq!['/'] + library_file_name(platform, name) =~= seq!['/'] + library_file_name(
        platform,
        name,
    ));
}

/// Storing a plugin under a class in a registry: it is what the registry
/// lists at that class's place; every other class keeps its plugin; the
/// number of plugins grows by one for a new class and stays the same for a
/// class that had a plugin (which is replaced).
pub proof fn law_stored_plugin_is_listed<F: Fn(&str) -> Vec<String>, L, Fac, P>(
    before: PluginRegistry<F, L, Fac, P>,
    after: PluginRegistry<F, L, Fac, P>,
    class: Seq<char>,
    plugin: P,
)
    requires
        before.wf(),
        after.wf(),
        after.plugins() == before.plugins().insert(class, plugin),
    ensures
        exists|i: int|
            0 <= i < after.plugin_seq().len() && #[trigger] after.plugin_entries()[i] == (
                class,
                plugin,
            ) && after.plugin_seq()[i] == plugin,
        forall|k: Seq<char>|
            k != class ==> (after.plugins().contains_key(k) == before.plugins().contains_key(k)) && (
            before.plugins().contains_key(k) ==> after.plugins()[k] == before.plugins()[k]),
        after.plugin_seq().len() == before.plugin_seq().len() + if before.plugins().contains_key(
            class,
        ) {
            0int
        } else {
            1int
        },
{
    before.lemma_plugins_ordered();
    after.lemma_plugins_ordered();
    let s = after.plugin_entries();
    assert(keyed_map(s).contains_key(class));
    assert(has_key(s, class));
    let i = choose|i: int| 0 <= i < s.len() && s[i].0 == class;
    lemma_keyed_map_at(s, i);
    assert(s[i] == (class, plugin));
    assert(after.plugin_seq()[i] == s[i].1);
    lemma_keyed_map_size(before.plugin_entries());
    lemma_keyed_map_size(s);
    if before.plugins().contains_key(class) {
        assert(after.plugins().dom() =~= before.plugins().dom());
    } else {
        assert(after.plugins().dom() =~= before.plugins().dom().insert(class));
    }
}

/// A library kept under a canonical path is the one found there afterwards,
/// and what is kept under every other path stays as it was.
pub proof fn law_kept_library_is_found<F: Fn(&str) -> Vec<String>, L>(
    before: PluginLoader<F, L>,
    after: PluginLoader<F, L>,
    path: Seq<u8>,
    lib: L,
    other: Seq<u8>,
)
    requires
        after.libraries() == before.libraries().insert(path, lib),
    ensures
        after.libraries().contains_key(path),
        after.libraries()[path] == lib,
        other != path ==> after.libraries().contains_key(other) == before.libraries().contains_key(
            other,
        ),
        other != path && before.libraries().contains_key(other) ==> after.libraries()[other]
            == before.libraries()[other],
{
}

/// A loader keeps at most one library per canonical path, shared by every
/// plugin loaded from it: along any run of loader states in which each change
/// keeps a newly opened library (the only change [`PluginLoader::add_library`]
/// makes, and only for a path not kept yet), once a library is kept under
/// `path` it stays the one kept there, and no later change opens `path` again.
/// ([`PluginLoader::library_step`] then answers `Cached` with that library.)
pub proof fn law_one_library_per_path<F: Fn(&str) -> Vec<String>, L>(
    states: Seq<PluginLoader<F, L>>,
    opened: Seq<(Seq<u8>, L)>,
    path: Seq<u8>,
    k: int,
)
    requires
        opened.len() + 1 == states.len(),
        forall|i: int|
            #![trigger opened[i]]
            0 <= i < opened.len() ==> !states[i].libraries().contains_key(opened[i].0)
                && states[i + 1].libraries() == states[i].libraries().insert(
                opened[i].0,
                opened[i].1,
            ),
        0 <= k < states.len(),
        states[k].libraries().contains_key(path),
    ensures
        forall|j: int|
            k <= j < states.len() ==> #[trigger] states[j].libraries().contains_key(path)
                && states[j].libraries()[path] == states[k].libraries()[path],
        forall|i: int| k <= i < opened.len() ==> #[trigger] opened[i].0 != path,
{
    assert forall|j: int| k <= j < states.len() implies #[trigger] states[j].libraries().contains_key(
        path,
    ) && states[j].libraries()[path] == states[k].libraries()[path] by {
        lemma_library_kept(states, opened, path, k, j);
    }
    assert forall|i: int| k <= i < opened.len() implies #[trigger] opened[i].0 != path by {
        lemma_library_kept(states, opened, path, k, i);
        assert(!states[i].libraries().contains_key(opened[i].0));
    }
}

proof fn lemma_library_kept<F: Fn(&str) -> Vec<String>, L>(
    states: Seq<PluginLoader<F, L>>,
    opened: Seq<(Seq<u8>, L)>,
    path: Seq<u8>,
    k: int,
    j: int,
)
    requires
        opened.len() + 1 == states.len(),
        forall|i: int|
            #![trigger opened[i]]
            0 <= i < opened.len() ==> !states[i].libraries().contains_key(opened[i].0)
                && states[i + 1].libraries() == states[i].libraries().insert(
                opened[i].0,
                opened[i].1,
            ),
        0 <= k <= j < states.len(),
        states[k].libraries().contains_key(path),
    ensures
        states[j].libraries().contains_key(path),
        states[j].libraries()[path] == states[k].libraries()[path],
    decreases j - k,
{
    if j > k {
        lemma_library_kept(states, opened, path, k, j - 1);
        let o = opened[j - 1];
        assert(!states[j - 1].libraries().contains_key(o.0));
        assert(o.0 != path);
    }
}

/// Along a run of search steps, each search has the candidates of the first,
/// and every search but the last has found exactly as many candidates
/// missing as steps were taken.
proof fn lemma_run_prefix(states: Seq<DsoSearch>, usable: Seq<bool>, k: int)
    requires
        states.len() > 0,
        states[0].missing() == 0,
        usable.len() == states[0].candidates().len(),
        forall|i: int|
            #![trigger states[i]]
            0 <= i < states.len() - 1 ==> probe_step(
                states[i],
                usable[states[i].missing() as int],
                states[i + 1],
            ),
        forall|i: int|
            #![trigger states[i]]
            0 <= i < states.len() - 2 ==> !usable[states[i].missing() as int],
        0 <= k < states.len(),
    ensures
        states[k].candidates() == states[0].candidates(),
        k < states.len() - 1 ==> states[k].missing() == k,
    decreases k,
{
    if k > 0 {
        lemma_run_prefix(states, usable, k - 1);
        assert(probe_step(states[k - 1], usable[states[k - 1].missing() as int], states[k]));
    }
}

/// A search for the file of a plugin, where for each candidate asked for the
/// host reports whether it is usable (it exists and has a canonical path),
/// and the search goes on only while nothing usable was found: it asks for
/// the candidates one by one in their order; when it locates a file, that is
/// the first usable candidate; it ends not-found (asks for nothing more,
/// and the loader then reports every candidate) only when no candidate is
/// usable, and when none is, it never locates one and moves past each
/// candidate it asks for.
pub proof fn law_search_run(states: Seq<DsoSearch>, usable: Seq<bool>)
    requires
        states.len() > 0,
        states[0].wf(),
        states[0].missing() == 0,
        usable.len() == states[0].candidates().len(),
        forall|i: int|
            #![trigger states[i]]
            0 <= i < states.len() - 1 ==> probe_step(
                states[i],
                usable[states[i].missing() as int],
                states[i + 1],
            ),
        forall|i: int|
            #![trigger states[i]]
            0 <= i < states.len() - 2 ==> !usable[states[i].missing() as int],
    ensures
        forall|i: int| 0 <= i < states.len() - 1 ==> #[trigger] states[i].missing() == i,
        states.last().candidates() == states[0].candidates(),
        states.last().missing() == usable.len() ==> forall|j: int|
            0 <= j < usable.len() ==> !#[trigger] usable[j],
        (forall|j: int| 0 <= j < usable.len() ==> !#[trigger] usable[j]) ==> states.last().missing()
            == states.len() - 1,
        states.len() > 1 && usable[states[states.len() - 2].missing() as int] ==> (
        states.last().missing() == states.len() - 2 && usable[states.last().missing() as int]
            && forall|j: int| 0 <= j < states.last().missing() ==> !#[trigger] usable[j]),
{
    let n = states.len() - 1;
    assert forall|i: int| 0 <= i < states.len() - 1 implies #[trigger] states[i].missing() == i by {
        lemma_run_prefix(states, usable, i);
    }
    lemma_run_prefix(states, usable, n);
    assert(states.last() == states[n]);
    // every step before the last moved past an unusable candidate
    assert forall|j: int| 0 <= j < n - 1 implies !#[trigger] usable[j] by {
        lemma_run_prefix(states, usable, j);
        assert(states[j].missing() == j);
    }
    if n > 0 {
        lemma_run_prefix(states, usable, n - 1);
        let before = states[n - 1];
        assert(probe_step(before, usable[before.missing() as int], states[n]));
        assert(before.missing() == n - 1);
    }
}

/// On Linux and FreeBSD the library file of `s` is `lib{s}.so`: `s` is copied
/// as it is, character for character, between the prefix and the suffix.
pub proof fn law_linux_library_file_name(s: Seq<char>)
    ensures
        library_file_name(Platform::LinuxFreeBsd, s) == "lib"@ + s + ".so"@,
{
    reveal_strlit("lib");
    reveal_strlit(".so");
    assert(library_file_name(Platform::LinuxFreeBsd, s) =~= "lib"@ + s + ".so"@);
}

/// On macOS the library file of `s` is `lib{s}.dylib`, with `s` copied as it is.
pub proof fn law_macos_library_file_name(s: Seq<char>)
    ensures
        library_file_name(Platform::MacOs, s) == "lib"@ + s + ".dylib"@,
{
    reveal_strlit("lib");
    reveal_strlit(".dylib");
    assert(library_file_name(Platform::MacOs, s) =~= "lib"@ + s + ".dylib"@);
}

/// On Windows the library file of `s` is `{s}.dll`, with `s` copied as it is.
pub proof fn law_windows_library_file_name(s: Seq<char>)
    ensures
        windows_library_file_name(s) == s + ".dll"@,
{
    reveal_strlit(".dll");
    assert(windows_library_file_name(s) =~= s + ".dll"@);
}

/// Settings that are an object whose `"class"` member is a string name
/// exactly that string as the plugin class, whatever it holds (a path with
/// `/` or a file name with `.` as well); settings of any other shape name no
/// class.
pub proof fn law_class_member_is_the_class(c: String, text: String)
    ensures
        plugin_class_of(PluginSettings::Object { class: Some(c) }) == Some(c@),
        plugin_class_of(PluginSettings::Object { class: None }) is None,
        plugin_class_of(PluginSettings::Other { text }) is None,
{
}

/// A class for which a factory is registered comes from that factory,
/// whatever the class looks like (with the bundled prefix too); and only such
/// a class comes from a factory.
pub proof fn law_factory_takes_precedence(factories: Set<Seq<char>>, class: Seq<char>, r: PluginSource)
    requires
        source_for(factories, class, r),
    ensures
        factories.contains(class) <==> r is Factory,
{
}

/// Without a factory for it, the class `com.worksap.nlp.sudachi.X` comes from
/// the bundled plugin `X`.
pub proof fn law_bundled_class_source(factories: Set<Seq<char>>, short: Seq<char>, r: PluginSource)
    requires
        !factories.contains("com.worksap.nlp.sudachi."@ + short),
        source_for(factories, "com.worksap.nlp.sudachi."@ + short, r),
    ensures
        r matches PluginSource::Bundled(s) && s@ == short,
{
    law_bundled_prefix_is_stripped(short);
}

/// Without a factory for it, a class that does not start with
/// `com.worksap.nlp.sudachi.` comes from a shared object.
pub proof fn law_plain_class_source(factories: Set<Seq<char>>, class: Seq<char>, r: PluginSource)
    requires
        !factories.contains(class),
        !"com.worksap.nlp.sudachi."@.is_prefix_of(class),
        source_for(factories, class, r),
    ensures
        r is SharedObject,
{
}

/// When the settings at the current position name a class for which a
/// factory is registered, the next step builds the plugin with that factory,
/// whatever the class looks like: registered factories come before bundled
/// plugins and shared objects.
pub proof fn law_registered_factory_is_called<P, E>(
    factories: Set<Seq<char>>,
    settings: Seq<PluginSettings>,
    next: int,
    class: String,
    stage: LoadStage,
    action: LoadAction<P, E>,
)
    requires
        0 <= next < settings.len(),
        settings[next] == (PluginSettings::Object { class: Some(class) }),
        factories.contains(class@),
        chosen(factories, settings, next, stage, action),
    ensures
        action matches LoadAction::CallFactory { index, class: k } && index == next && k@ == class@,
{
}

/// When the settings at the current position name the class
/// `com.worksap.nlp.sudachi.X` and no factory is registered for it, the next
/// step asks for the bundled plugin `X`.
pub proof fn law_bundled_plugin_is_asked<P, E>(
    factories: Set<Seq<char>>,
    settings: Seq<PluginSettings>,
    next: int,
    class: String,
    short: Seq<char>,
    stage: LoadStage,
    action: LoadAction<P, E>,
)
    requires
        0 <= next < settings.len(),
        settings[next] == (PluginSettings::Object { class: Some(class) }),
        class@ == "com.worksap.nlp.sudachi."@ + short,
        !factories.contains(class@),
        chosen(factories, settings, next, stage, action),
    ensures
        action matches LoadAction::AskBundled { index, name } && index == next && name@ == short,
{
    law_bundled_prefix_is_stripped(short);
}

/// When the settings at the current position name a class that does not start
/// with `com.worksap.nlp.sudachi.` and no factory is registered for it, the
/// next step loads the plugin of that class from a shared object.
pub proof fn law_plain_class_is_loaded<P, E>(
    factories: Set<Seq<char>>,
    settings: Seq<PluginSettings>,
    next: int,
    class: String,
    stage: LoadStage,
    action: LoadAction<P, E>,
)
    requires
        0 <= next < settings.len(),
        settings[next] == (PluginSettings::Object { class: Some(class) }),
        !"com.worksap.nlp.sudachi."@.is_prefix_of(class@),
        !factories.contains(class@),
        chosen(factories, settings, next, stage, action),
    ensures
        action matches LoadAction::LoadSharedObject { index, class: k } && index == next && k@
            == class@,
{
}

/// The candidate paths of a plugin are what the resolver gives for its name,
/// followed by what the resolver gives for the name's variant when it has
/// one; every name goes through the resolver, whatever it looks like.
pub proof fn law_candidates_come_from_resolver<F: Fn(&str) -> Vec<String>>(
    f: F,
    platform: Platform,
    name: &str,
    out: Seq<String>,
)
    requires
        resolved_names(f, platform, name, out),
    ensures
        system_specific_name_on(platform, name@) is None ==> exists|direct: Vec<String>|
            #![trigger call_ensures(f, (name,), direct)]
            call_ensures(f, (name,), direct) && out == direct@,
        system_specific_name_on(platform, name@) matches Some(variant) ==> exists|
            direct: Vec<String>,
            v: &str,
            more: Vec<String>,
        |
            #![trigger call_ensures(f, (name,), direct), call_ensures(f, (v,), more)]
            call_ensures(f, (name,), direct) && v@ == variant && call_ensures(f, (v,), more) && out
                == direct@ + more@,
{
}

} // verus!
