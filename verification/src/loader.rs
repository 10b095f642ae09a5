//! Locating and caching the shared objects that plugins are loaded from.
//!
//! A plugin name is turned into candidate file paths by a resolver: the name
//! as written and, where there is one, its platform-specific variant (see
//! [`crate::naming`]). The candidates are probed in order, and the first one
//! that exists on disk is used. Each library file, identified by its canonical
//! path, is opened at most once: later plugins from the same file reuse it.
//!
//! Probing the file system and opening libraries happen outside this module;
//! [`DsoSearch`] decides which candidate to probe next and when the search ends.

use vstd::prelude::*;

use crate::error::{string_views, PluginError};
use crate::keyed::{distinct_keys, has_key, keyed_map, lemma_keyed_map_at, lemma_keyed_push};
use crate::naming::{system_specific_name_for, system_specific_name_on, Platform};

verus! {

/// `out` is what a loader with resolver `f`, following the library naming of
/// `platform`, resolves plugin name `name` to: `f(name)`, followed by
/// `f(variant)` when `name` has a variant on that platform.
pub open spec fn resolved_names<F: Fn(&str) -> Vec<String>>(
    f: F,
    platform: Platform,
    name: &str,
    out: Seq<String>,
) -> bool {
    exists|direct: Vec<String>|
        #![trigger call_ensures(f, (name,), direct)]
        call_ensures(f, (name,), direct) && match system_specific_name_on(platform, name@) {
            None => out == direct@,
            Some(variant) => exists|v: &str, more: Vec<String>|
                #![trigger call_ensures(f, (v,), more)]
                v@ == variant && call_ensures(f, (v,), more) && out == direct@ + more@,
        }
}

/// Loads plugin libraries: resolves plugin names to candidate paths with
/// `resolver`, following the library naming of a platform, and keeps each
/// opened library (of type `L`) under its canonical path.
pub struct PluginLoader<F, L> {
    resolver: F,
    platform: Platform,
    libraries: Vec<(Vec<u8>, L)>,
}

/// The views of the keys of `s`.
pub open spec fn library_entry_views<L>(s: Seq<(Vec<u8>, L)>) -> Seq<(Seq<u8>, L)> {
    s.map_values(|e: (Vec<u8>, L)| (e.0@, e.1))
}

/// Whether `a` and `b` hold the same bytes.
fn same_bytes(a: &Vec<u8>, b: &Vec<u8>) -> (r: bool)
    ensures
        r == (a@ == b@),
{
    if a.len() != b.len() {
        return false;
    }
    let mut i: usize = 0;
    while i < a.len()
        invariant
            a@.len() == b@.len(),
            i <= a@.len(),
            forall|j: int| 0 <= j < i ==> a@[j] == b@[j],
        decreases a@.len() - i,
    {
        if a[i] != b[i] {
            return false;
        }
        i = i + 1;
    }
    assert(a@ =~= b@);
    true
}

impl<F: Fn(&str) -> Vec<String>, L> PluginLoader<F, L> {
    /// The resolver that turns names into candidate paths.
    pub closed spec fn resolver(&self) -> F {
        self.resolver
    }

    /// The platform whose library naming gives the name variants.
    pub closed spec fn platform(&self) -> Platform {
        self.platform
    }

    /// The opened libraries, under their canonical paths.
    pub closed spec fn libraries(&self) -> Map<Seq<u8>, L> {
        keyed_map(library_entry_views(self.libraries@))
    }

    /// The loader's invariant: the resolver accepts every name, and no path
    /// is cached twice.
    pub closed spec fn wf(&self) -> bool {
        &&& forall|s: &str| call_requires(self.resolver, (s,))
        &&& distinct_keys(library_entry_views(self.libraries@))
    }

    /// A loader with the given resolver, following Linux/FreeBSD library
    /// naming, with no library opened yet.
    pub fn new(resolver: F) -> (r: Self)
        requires
            forall|s: &str| call_requires(resolver, (s,)),
        ensures
            r.wf(),
            r.resolver() == resolver,
            r.platform() == Platform::LinuxFreeBsd,
            r.libraries() == Map::<Seq<u8>, L>::empty(),
    {
        Self::with_platform(resolver, Platform::LinuxFreeBsd)
    }

    /// A loader with the given resolver, following the library naming of
    /// `platform`, with no library opened yet.
    pub fn with_platform(resolver: F, platform: Platform) -> (r: Self)
        requires
            forall|s: &str| call_requires(resolver, (s,)),
        ensures
            r.wf(),
            r.resolver() == resolver,
            r.platform() == platform,
            r.libraries() == Map::<Seq<u8>, L>::empty(),
    {
        let r = PluginLoader { resolver, platform, libraries: Vec::new() };
        assert(library_entry_views(r.libraries@) =~= Seq::<(Seq<u8>, L)>::empty());
        assert(r.libraries() =~= Map::<Seq<u8>, L>::empty());
        r
    }

    /// The candidate paths of plugin `name`: what the resolver gives for the
    /// name, then what it gives for the platform-specific variant of the name
    /// when there is one.
    pub fn resolve_dso_names(&self, name: &str) -> (r: Vec<String>)
        requires
            self.wf(),
        ensures
            resolved_names(self.resolver(), self.platform(), name, r@),
            exists|direct: Vec<String>|
                #![trigger call_ensures(self.resolver(), (name,), direct)]
                call_ensures(self.resolver(), (name,), direct) && direct@.len() <= r@.len()
                    && r@.subrange(0, direct@.len() as int) == direct@,
    {
        let mut resolved = (self.resolver)(name);
        let ghost direct = resolved;
        let variant = system_specific_name_for(self.platform, name);
        match variant {
            Some(sysname) => {
                let v = sysname.as_str();
                let mut more = (self.resolver)(v);
                let ghost more_copy = more;
                resolved.append(&mut more);
                assert(resolved@.subrange(0, direct@.len() as int) =~= direct@);
                assert(call_ensures(self.resolver, (v,), more_copy));
                assert(call_ensures(self.resolver, (name,), direct));
            },
            None => {
                assert(resolved@.subrange(0, direct@.len() as int) =~= direct@);
                assert(call_ensures(self.resolver, (name,), direct));
            },
        }
        assert(call_ensures(self.resolver(), (name,), direct) && direct@.len() <= resolved@.len()
            && resolved@.subrange(0, direct@.len() as int) == direct@);
        resolved
    }

    /// The library opened from canonical path `path`, if any.
    pub fn library(&self, path: &Vec<u8>) -> (r: Option<&L>)
        requires
            self.wf(),
        ensures
            r is Some <==> self.libraries().contains_key(path@),
            r matches Some(l) ==> *l == self.libraries()[path@],
    {
        let ghost views = library_entry_views(self.libraries@);
        let mut i: usize = 0;
        while i < self.libraries.len()
            invariant
                i <= self.libraries@.len(),
                views == library_entry_views(self.libraries@),
                distinct_keys(views),
                forall|j: int| 0 <= j < i ==> views[j].0 != path@,
            decreases self.libraries@.len() - i,
        {
            if same_bytes(&self.libraries[i].0, path) {
                proof {
                    lemma_keyed_map_at(views, i as int);
                }
                return Some(&self.libraries[i].1);
            }
            i = i + 1;
        }
        assert(!has_key(views, path@));
        None
    }

    /// What to do with the library file at canonical path `path`, which a
    /// search located: use the library already opened from it, or open it
    /// (and then keep it with [`PluginLoader::add_library`]). A file is opened
    /// only when no library was opened from the same canonical path before.
    pub fn library_step(&self, path: Vec<u8>) -> (r: LibraryStep<'_, L>)
        requires
            self.wf(),
        ensures
            match r {
                LibraryStep::Cached(l) => self.libraries().contains_key(path@) && *l
                    == self.libraries()[path@],
                LibraryStep::Open(p) => !self.libraries().contains_key(path@) && p == path,
            },
    {
        match self.library(&path) {
            Some(l) => LibraryStep::Cached(l),
            None => LibraryStep::Open(path),
        }
    }

    /// Keeps `lib`, opened from canonical path `path`, for later loads.
    /// The path must not have been opened before.
    pub fn add_library(&mut self, path: Vec<u8>, lib: L)
        requires
            old(self).wf(),
            !old(self).libraries().contains_key(path@),
        ensures
            final(self).wf(),
            final(self).resolver() == old(self).resolver(),
            final(self).platform() == old(self).platform(),
            final(self).libraries() == old(self).libraries().insert(path@, lib),
    {
        let ghost old_views = library_entry_views(self.libraries@);
        let ghost key = path@;
        proof {
            if has_key(old_views, key) {
                let j = choose|j: int| 0 <= j < old_views.len() && old_views[j].0 == key;
                assert(keyed_map(old_views).contains_key(key));
            }
        }
        self.libraries.push((path, lib));
        assert(library_entry_views(self.libraries@) =~= old_views.push((key, lib)));
        proof {
            lemma_keyed_push(old_views, key, lib);
        }
    }
}

/// What to do with a located library file.
pub enum LibraryStep<'a, L> {
    /// Use this library, opened from the same canonical path before.
    Cached(&'a L),
    /// Open the file at this canonical path.
    Open(Vec<u8>),
}

/// The search for the file of one plugin among its candidate paths.
pub struct DsoSearch {
    name: String,
    candidates: Vec<String>,
    next: usize,
}

/// `after` is the search `before` once the host reported whether the
/// candidate asked for is usable (`found`): a usable candidate ends the search
/// where it stands, an unusable one moves it on to the next candidate.
pub open spec fn probe_step(before: DsoSearch, found: bool, after: DsoSearch) -> bool {
    &&& before.wf()
    &&& after.wf()
    &&& before.missing() < before.candidates().len()
    &&& after.name() == before.name()
    &&& after.candidates() == before.candidates()
    &&& after.missing() == if found {
        before.missing()
    } else {
        before.missing() + 1
    }
}

/// What the search asks for next.
pub enum SearchAction {
    /// Check whether this candidate path exists, and get its canonical path.
    Probe(String),
    /// The candidate just probed exists; this is its canonical path.
    Located(Vec<u8>),
    /// No candidate exists.
    NotFound(PluginError),
}

impl DsoSearch {
    /// The plugin name searched for.
    pub closed spec fn name(&self) -> Seq<char> {
        self.name@
    }

    /// The candidate paths, in the order they are probed.
    pub closed spec fn candidates(&self) -> Seq<Seq<char>> {
        string_views(self.candidates@)
    }

    /// How many candidates were found missing so far.
    pub closed spec fn missing(&self) -> nat {
        self.next as nat
    }

    /// The search's invariant: it has not gone past the last candidate.
    pub closed spec fn wf(&self) -> bool {
        self.next <= self.candidates@.len()
    }

    /// The candidate paths, in the order they are probed.
    pub fn candidates_tried(&self) -> (r: &Vec<String>)
        ensures
            string_views(r@) == self.candidates(),
    {
        &self.candidates
    }

    /// Starts the search for plugin `name` among the candidates that
    /// `loader` resolves it to.
    pub fn start<F: Fn(&str) -> Vec<String>, L>(loader: &PluginLoader<F, L>, name: &str) -> (r:
        DsoSearch)
        requires
            loader.wf(),
        ensures
            r.wf(),
            r.name() == name@,
            r.missing() == 0,
            exists|c: Seq<String>|
                resolved_names(loader.resolver(), loader.platform(), name, c) && r.candidates() == string_views(c),
    {
        let candidates = loader.resolve_dso_names(name);
        let r = DsoSearch { name: name.to_owned(), candidates, next: 0 };
        assert(resolved_names(loader.resolver(), loader.platform(), name, r.candidates@) && r.candidates() == string_views(
            r.candidates@,
        ));
        r
    }

    /// The next step: probe the next candidate, or give up with a not-found
    /// error naming the plugin and every candidate tried.
    pub fn next_action(&self) -> (r: SearchAction)
        requires
            self.wf(),
        ensures
            self.missing() < self.candidates().len() ==> (r matches SearchAction::Probe(p) && p@
                == self.candidates()[self.missing() as int]),
            self.missing() == self.candidates().len() ==> (r matches SearchAction::NotFound(
                PluginError::NotFound { name, candidates },
            ) && name@ == self.name() && string_views(candidates@)
                == self.candidates()),
    {
        if self.next < self.candidates.len() {
            SearchAction::Probe(self.candidates[self.next].clone())
        } else {
            let r = SearchAction::NotFound(
                PluginError::NotFound { name: self.name.clone(), candidates: self.candidates.clone() },
            );
            r
        }
    }

    /// Takes the outcome of probing the candidate asked for: its canonical
    /// path when it exists, `None` when it does not. An existing candidate ends
    /// the search; a missing one moves on to the next candidate.
    pub fn probed(&mut self, outcome: Option<Vec<u8>>) -> (r: SearchAction)
        requires
            old(self).wf(),
            old(self).missing() < old(self).candidates().len(),
        ensures
            final(self).wf(),
            final(self).name() == old(self).name(),
            final(self).candidates() == old(self).candidates(),
            probe_step(*old(self), outcome is Some, *final(self)),
            match outcome {
                Some(path) => final(self).missing() == old(self).missing() && r == SearchAction::Located(path),
                None => final(self).missing() == old(self).missing() + 1 && (final(self).missing()
                    < final(self).candidates().len() ==> (r matches SearchAction::Probe(p) && p@
                    == final(self).candidates()[final(self).missing() as int])) && (
                final(self).missing() == final(self).candidates().len() ==> (
                r matches SearchAction::NotFound(PluginError::NotFound { name, candidates })
                    && name@ == final(self).name() && string_views(candidates@)
                    == final(self).candidates())),
            },
    {
        match outcome {
            Some(path) => SearchAction::Located(path),
            None => {
                assert(self.candidates().len() == self.candidates@.len());
                assert(self.next < self.candidates.len());
                self.next = self.next + 1;
                self.next_action()
            },
        }
    }
}

} // verus!
