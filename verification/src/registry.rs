//! The registry of one kind of plugin.
//!
//! A registry knows the plugin factories registered by name, a loader for
//! plugins that come from shared objects, and the plugins loaded so far under
//! their class names. It holds at most one plugin per class name: loading a
//! class that is already present replaces the earlier plugin. Its plugins are
//! kept, and handed out, in ascending order of class name.

use vstd::prelude::*;
use vstd::string::*;

use crate::error::string_views;
use crate::keyed::{
    distinct_keys,
    has_key,
    keyed_map,
    lemma_keyed_insert,
    lemma_keyed_map_at,
    lemma_keyed_push,
    lemma_keyed_update,
};
use crate::loader::{resolved_names, DsoSearch, LibraryStep, PluginLoader};
use crate::naming::Platform;
use crate::name_order::{
    lemma_name_less_irreflexive,
    lemma_name_less_total,
    lemma_name_less_transitive,
    name_less,
    name_eq,
    name_lt,
};

verus! {

/// The entries of `s` with each name taken by its view.
pub open spec fn name_entry_views<V>(s: Seq<(String, V)>) -> Seq<(Seq<char>, V)> {
    s.map_values(|e: (String, V)| (e.0@, e.1))
}

/// The names of `s` are in strictly ascending order.
pub open spec fn names_ascending<V>(s: Seq<(Seq<char>, V)>) -> bool {
    forall|i: int, j: int| 0 <= i < j < s.len() ==> name_less(#[trigger] s[i].0, #[trigger] s[j].0)
}

/// The values of `s`, in order.
pub open spec fn entry_values<V>(s: Seq<(Seq<char>, V)>) -> Seq<V> {
    s.map_values(|e: (Seq<char>, V)| e.1)
}

/// Strictly ascending names are distinct.
pub proof fn lemma_ascending_distinct<V>(s: Seq<(Seq<char>, V)>)
    requires
        names_ascending(s),
    ensures
        distinct_keys(s),
{
    assert forall|i: int, j: int| 0 <= i < s.len() && 0 <= j < s.len() && i != j implies s[i].0
        != s[j].0 by {
        if s[i].0 == s[j].0 {
            lemma_name_less_irreflexive(s[i].0);
            if i < j {
                assert(name_less(s[i].0, s[j].0));
            } else {
                assert(name_less(s[j].0, s[i].0));
            }
        }
    }
}

/// The prefix that marks the class names of plugins bundled with the library.
pub open spec fn bundled_prefix() -> Seq<char> {
    "com.worksap.nlp.sudachi."@
}

/// The short name of a bundled plugin: `class` without the bundled prefix,
/// when it starts with that prefix.
pub open spec fn bundled_name_of(class: Seq<char>) -> Option<Seq<char>> {
    let p = bundled_prefix();
    if class.len() >= p.len() && class.subrange(0, p.len() as int) == p {
        Some(class.subrange(p.len() as int, class.len() as int))
    } else {
        None
    }
}

/// `class` without the bundled prefix, when it starts with it.
pub fn strip_bundled_prefix(class: &str) -> (r: Option<String>)
    ensures
        match r {
            Some(s) => bundled_name_of(class@) == Some(s@),
            None => bundled_name_of(class@) is None,
        },
{
    let prefix = "com.worksap.nlp.sudachi.";
    let n = prefix.unicode_len();
    let m = class.unicode_len();
    if m < n {
        return None;
    }
    let mut i: usize = 0;
    while i < n
        invariant
            n == prefix@.len(),
            m == class@.len(),
            n <= m,
            i <= n,
            prefix@ == bundled_prefix(),
            forall|j: int| 0 <= j < i ==> class@[j] == prefix@[j],
        decreases n - i,
    {
        if class.get_char(i) != prefix.get_char(i) {
            assert(class@.subrange(0, n as int)[i as int] != bundled_prefix()[i as int]);
            return None;
        }
        i = i + 1;
    }
    assert(class@.subrange(0, n as int) =~= bundled_prefix());
    let rest = class.substring_char(n, m);
    Some(rest.to_owned())
}

/// Where a plugin of a given class comes from.
pub enum PluginSource {
    /// The factory registered under the class name builds it.
    Factory,
    /// It may be bundled with the library, under this short name; if it is
    /// not, it comes from a shared object.
    Bundled(String),
    /// It comes from a shared object.
    SharedObject,
}

/// `r` is where a plugin of class `class` comes from, given the factories
/// registered under the names in `factories`: a registered factory first,
/// then a bundled plugin for a class with the bundled prefix, else a shared
/// object.
pub open spec fn source_for(factories: Set<Seq<char>>, class: Seq<char>, r: PluginSource) -> bool {
    if factories.contains(class) {
        r is Factory
    } else {
        match bundled_name_of(class) {
            Some(short) => r matches PluginSource::Bundled(s) && s@ == short,
            None => r is SharedObject,
        }
    }
}

/// The plugins of one kind: registered factories (of type `Fac`), the
/// shared-object loader (with resolver `F`, keeping libraries of type `L`),
/// and the loaded plugins (of type `P`) under their class names.
pub struct PluginRegistry<F, L, Fac, P> {
    loader: PluginLoader<F, L>,
    factories: Vec<(String, Fac)>,
    plugins: Vec<(String, P)>,
}

impl<F: Fn(&str) -> Vec<String>, L, Fac, P> PluginRegistry<F, L, Fac, P> {
    /// The shared-object loader.
    pub closed spec fn loader(&self) -> PluginLoader<F, L> {
        self.loader
    }

    /// The registered factories, by name.
    pub closed spec fn factories(&self) -> Map<Seq<char>, Fac> {
        keyed_map(name_entry_views(self.factories@))
    }

    /// The loaded plugins with their class names, in ascending name order.
    pub closed spec fn plugin_entries(&self) -> Seq<(Seq<char>, P)> {
        name_entry_views(self.plugins@)
    }

    /// The loaded plugins, by class name.
    pub open spec fn plugins(&self) -> Map<Seq<char>, P> {
        keyed_map(self.plugin_entries())
    }

    /// The loaded plugins in ascending order of class name.
    pub open spec fn plugin_seq(&self) -> Seq<P> {
        entry_values(self.plugin_entries())
    }

    /// The registry's invariant.
    pub closed spec fn wf(&self) -> bool {
        &&& self.loader.wf()
        &&& distinct_keys(name_entry_views(self.factories@))
        &&& names_ascending(self.plugin_entries())
    }

    /// What callers may rely on of a registry that keeps its invariant: its
    /// plugins are listed once each, in ascending order of class name.
    pub proof fn lemma_plugins_ordered(&self)
        requires
            self.wf(),
        ensures
            names_ascending(self.plugin_entries()),
            distinct_keys(self.plugin_entries()),
            self.loader().wf(),
    {
        lemma_ascending_distinct(self.plugin_entries());
    }

    /// An empty registry whose loader resolves names with `resolver` and
    /// follows Linux/FreeBSD library naming.
    pub fn new(resolver: F) -> (r: Self)
        requires
            forall|s: &str| call_requires(resolver, (s,)),
        ensures
            r.wf(),
            r.loader().resolver() == resolver,
            r.loader().platform() == Platform::LinuxFreeBsd,
            r.loader().libraries() == Map::<Seq<u8>, L>::empty(),
            r.factories() == Map::<Seq<char>, Fac>::empty(),
            r.plugin_entries() == Seq::<(Seq<char>, P)>::empty(),
    {
        Self::with_platform(resolver, Platform::LinuxFreeBsd)
    }

    /// An empty registry whose loader resolves names with `resolver` and
    /// follows the library naming of `platform`.
    pub fn with_platform(resolver: F, platform: Platform) -> (r: Self)
        requires
            forall|s: &str| call_requires(resolver, (s,)),
        ensures
            r.wf(),
            r.loader().resolver() == resolver,
            r.loader().platform() == platform,
            r.loader().libraries() == Map::<Seq<u8>, L>::empty(),
            r.factories() == Map::<Seq<char>, Fac>::empty(),
            r.plugin_entries() == Seq::<(Seq<char>, P)>::empty(),
    {
        let r = PluginRegistry {
            loader: PluginLoader::with_platform(resolver, platform),
            factories: Vec::new(),
            plugins: Vec::new(),
        };
        assert(name_entry_views(r.factories@) =~= Seq::<(Seq<char>, Fac)>::empty());
        assert(r.factories() =~= Map::<Seq<char>, Fac>::empty());
        assert(r.plugin_entries() =~= Seq::<(Seq<char>, P)>::empty());
        r
    }

    /// Registers `factory` under `name`, replacing any factory registered
    /// under that name before.
    pub fn register_plugin(&mut self, name: &str, factory: Fac)
        requires
            old(self).wf(),
        ensures
            final(self).wf(),
            final(self).factories() == old(self).factories().insert(name@, factory),
            final(self).plugin_entries() == old(self).plugin_entries(),
            final(self).loader() == old(self).loader(),
    {
        let ghost views = name_entry_views(self.factories@);
        let mut i: usize = 0;
        while i < self.factories.len()
            invariant
                i <= self.factories@.len(),
                views == name_entry_views(self.factories@),
                forall|j: int| 0 <= j < i ==> views[j].0 != name@,
            ensures
                i <= self.factories@.len(),
                forall|j: int| 0 <= j < i ==> views[j].0 != name@,
                i < self.factories@.len() ==> views[i as int].0 == name@,
            decreases self.factories@.len() - i,
        {
            if name_eq(self.factories[i].0.as_str(), name) {
                break;
            }
            i = i + 1;
        }
        if i < self.factories.len() {
            proof {
                lemma_keyed_update(views, i as int, factory);
            }
            let key = self.factories[i].0.clone();
            self.factories.set(i, (key, factory));
            assert(name_entry_views(self.factories@) =~= views.update(
                i as int,
                (views[i as int].0, factory),
            ));
        } else {
            assert(!has_key(views, name@));
            proof {
                lemma_keyed_push(views, name@, factory);
            }
            self.factories.push((name.to_owned(), factory));
            assert(name_entry_views(self.factories@) =~= views.push((name@, factory)));
        }
    }

    /// The factory registered under `name`, if any.
    pub fn factory(&self, name: &str) -> (r: Option<&Fac>)
        requires
            self.wf(),
        ensures
            r is Some <==> self.factories().contains_key(name@),
            r matches Some(f) ==> *f == self.factories()[name@],
    {
        let ghost views = name_entry_views(self.factories@);
        let mut i: usize = 0;
        while i < self.factories.len()
            invariant
                i <= self.factories@.len(),
                views == name_entry_views(self.factories@),
                distinct_keys(views),
                forall|j: int| 0 <= j < i ==> views[j].0 != name@,
            decreases self.factories@.len() - i,
        {
            if name_eq(self.factories[i].0.as_str(), name) {
                proof {
                    lemma_keyed_map_at(views, i as int);
                }
                return Some(&self.factories[i].1);
            }
            i = i + 1;
        }
        assert(!has_key(views, name@));
        None
    }

    /// Where a plugin of class `class` comes from (see [`source_for`]).
    pub fn source_of(&self, class: &str) -> (r: PluginSource)
        requires
            self.wf(),
        ensures
            source_for(self.factories().dom(), class@, r),
            self.factories().contains_key(class@) ==> r is Factory,
    {
        if self.factory(class).is_some() {
            PluginSource::Factory
        } else {
            match strip_bundled_prefix(class) {
                Some(short) => PluginSource::Bundled(short),
                None => PluginSource::SharedObject,
            }
        }
    }

    /// The library its loader opened from canonical path `path`, if any.
    pub fn library(&self, path: &Vec<u8>) -> (r: Option<&L>)
        requires
            self.wf(),
        ensures
            r is Some <==> self.loader().libraries().contains_key(path@),
            r matches Some(l) ==> *l == self.loader().libraries()[path@],
    {
        self.loader.library(path)
    }

    /// What to do with the library file its loader's search located at
    /// canonical path `path` (see [`PluginLoader::library_step`]).
    pub fn library_step(&self, path: Vec<u8>) -> (r: LibraryStep<'_, L>)
        requires
            self.wf(),
        ensures
            match r {
                LibraryStep::Cached(l) => self.loader().libraries().contains_key(path@) && *l
                    == self.loader().libraries()[path@],
                LibraryStep::Open(p) => !self.loader().libraries().contains_key(path@) && p == path,
            },
    {
        self.loader.library_step(path)
    }

    /// Keeps `lib`, opened from canonical path `path`, in its loader.
    pub fn add_library(&mut self, path: Vec<u8>, lib: L)
        requires
            old(self).wf(),
            !old(self).loader().libraries().contains_key(path@),
        ensures
            final(self).wf(),
            final(self).loader().resolver() == old(self).loader().resolver(),
            final(self).loader().platform() == old(self).loader().platform(),
            final(self).loader().libraries() == old(self).loader().libraries().insert(path@, lib),
            final(self).factories() == old(self).factories(),
            final(self).plugin_entries() == old(self).plugin_entries(),
    {
        self.loader.add_library(path, lib);
    }

    /// Starts the search for the shared object of plugin `name`.
    pub fn start_search(&self, name: &str) -> (r: DsoSearch)
        requires
            self.wf(),
        ensures
            r.wf(),
            r.name() == name@,
            r.missing() == 0,
            exists|c: Seq<String>|
                resolved_names(self.loader().resolver(), self.loader().platform(), name, c) && r.candidates()
                    == string_views(c),
    {
        DsoSearch::start(&self.loader, name)
    }

    /// Adds `plugin` under class `name`, replacing a plugin of that class.
    /// The plugins stay in ascending order of class name.
    pub fn insert_plugin(&mut self, name: String, plugin: P)
        requires
            old(self).wf(),
        ensures
            final(self).wf(),
            final(self).plugins() == old(self).plugins().insert(name@, plugin),
            final(self).factories() == old(self).factories(),
            final(self).loader() == old(self).loader(),
    {
        let ghost s = self.plugin_entries();
        proof {
            lemma_ascending_distinct(s);
        }
        let mut i: usize = 0;
        while i < self.plugins.len()
            invariant
                i <= self.plugins@.len(),
                s == name_entry_views(self.plugins@),
                forall|j: int| 0 <= j < i ==> name_less(#[trigger] s[j].0, name@),
            ensures
                i <= self.plugins@.len(),
                s == name_entry_views(self.plugins@),
                forall|j: int| 0 <= j < i ==> name_less(#[trigger] s[j].0, name@),
                i < self.plugins@.len() ==> !name_less(s[i as int].0, name@),
            decreases self.plugins@.len() - i,
        {
            if !name_lt(self.plugins[i].0.as_str(), name.as_str()) {
                break;
            }
            i = i + 1;
        }
        if i < self.plugins.len() && self.plugins[i].0 == name {
            proof {
                lemma_keyed_update(s, i as int, plugin);
            }
            self.plugins.set(i, (name, plugin));
            assert(name_entry_views(self.plugins@) =~= s.update(i as int, (s[i as int].0, plugin)));
        } else {
            let ghost key = name@;
            proof {
                // every name from position `i` on comes after `key`
                assert forall|j: int| i <= j < s.len() implies name_less(key, #[trigger] s[j].0) by {
                    lemma_name_less_total(key, s[i as int].0);
                    if j > i {
                        lemma_name_less_transitive(key, s[i as int].0, s[j].0);
                    }
                }
                assert forall|j: int| 0 <= j < s.len() implies s[j].0 != key by {
                    lemma_name_less_irreflexive(key);
                    if j < i {
                        assert(name_less(s[j].0, key));
                    } else {
                        assert(name_less(key, s[j].0));
                    }
                }
                lemma_keyed_insert(s, i as int, key, plugin);
            }
            self.plugins.insert(i, (name, plugin));
            let ghost t = s.insert(i as int, (key, plugin));
            assert(name_entry_views(self.plugins@) =~= t);
            assert forall|a: int, b: int| 0 <= a < b < t.len() implies name_less(
                #[trigger] t[a].0,
                #[trigger] t[b].0,
            ) by {
                if a < i && b < i {
                    assert(t[a] == s[a] && t[b] == s[b]);
                } else if a < i && b == i {
                    assert(t[a] == s[a]);
                } else if a < i {
                    assert(t[a] == s[a] && t[b] == s[b - 1]);
                    lemma_name_less_transitive(s[a].0, key, s[b - 1].0);
                } else if a == i {
                    assert(t[b] == s[b - 1]);
                } else {
                    assert(t[a] == s[a - 1] && t[b] == s[b - 1]);
                }
            }
        }
    }

    /// How many plugins are loaded.
    pub fn loaded_count(&self) -> (r: usize)
        ensures
            r == self.plugin_seq().len(),
    {
        self.plugins.len()
    }

    /// The `i`-th loaded plugin in ascending order of class name.
    pub fn loaded(&self, i: usize) -> (r: &P)
        requires
            i < self.plugin_seq().len(),
        ensures
            *r == self.plugin_seq()[i as int],
    {
        &self.plugins[i].1
    }

    /// Gives up the registry, keeping its plugins in ascending order of class name.
    pub fn drain(self) -> (r: Vec<P>)
        ensures
            r@ == self.plugin_seq(),
    {
        let ghost all = self.plugin_seq();
        let mut plugins = self.plugins;
        let mut out: Vec<P> = Vec::new();
        while plugins.len() > 0
            invariant
                out@ + entry_values(name_entry_views(plugins@)) == all,
            decreases plugins@.len(),
        {
            let ghost before = entry_values(name_entry_views(plugins@));
            let (_, p) = plugins.remove(0);
            assert(before =~= seq![p] + entry_values(name_entry_views(plugins@)));
            out.push(p);
            assert(out@ + entry_values(name_entry_views(plugins@)) =~= all);
        }
        assert(entry_values(name_entry_views(plugins@)) =~= Seq::<P>::empty());
        assert(out@ =~= all);
        out
    }
}

} // verus!
