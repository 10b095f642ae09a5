//! Read access to loaded plugins, and the plugins of every kind together.

use vstd::prelude::*;
use vstd::string::*;

use crate::error::LoadError;
use crate::registry::PluginRegistry;

verus! {

/// A collection of loaded plugins of one kind, read in a fixed order.
pub trait PluginContainer<P> {
    /// The plugins, in the order they are read.
    spec fn contents(&self) -> Seq<P>;

    /// Whether there is no plugin.
    fn is_empty(&self) -> (r: bool)
        ensures
            r == (self.contents().len() == 0),
    ;

    /// How many plugins there are.
    fn plugin_count(&self) -> (r: usize)
        ensures
            r == self.contents().len(),
    ;

    /// The `i`-th plugin.
    fn plugin(&self, i: usize) -> (r: &P)
        requires
            i < self.contents().len(),
        ensures
            *r == self.contents()[i as int],
    ;

    /// The plugins, in order.
    fn iter(&self) -> (r: Vec<&P>)
        ensures
            r@.len() == self.contents().len(),
            forall|i: int| 0 <= i < r@.len() ==> *r@[i] == self.contents()[i],
    ;
}

impl<F: Fn(&str) -> Vec<String>, L, Fac, P> PluginContainer<P> for PluginRegistry<F, L, Fac, P> {
    /// The loaded plugins in ascending order of class name.
    open spec fn contents(&self) -> Seq<P> {
        self.plugin_seq()
    }

    fn is_empty(&self) -> (r: bool) {
        self.loaded_count() == 0
    }

    fn plugin_count(&self) -> (r: usize) {
        self.loaded_count()
    }

    fn plugin(&self, i: usize) -> (r: &P) {
        self.loaded(i)
    }

    fn iter(&self) -> (r: Vec<&P>) {
        let n = self.loaded_count();
        let mut r: Vec<&P> = Vec::new();
        let mut i: usize = 0;
        while i < n
            invariant
                n == self.plugin_seq().len(),
                i <= n,
                r@.len() == i,
                forall|j: int| 0 <= j < i ==> *r@[j] == self.plugin_seq()[j],
            decreases n - i,
        {
            r.push(self.loaded(i));
            i = i + 1;
        }
        r
    }
}

/// Plugins of one kind, loaded and fixed: the plugins that a registry held,
/// in ascending order of class name.
pub struct FrozenPluginContainer<P> {
    plugins: Vec<P>,
}

impl<P> FrozenPluginContainer<P> {
    fn new(plugins: Vec<P>) -> (r: Self)
        ensures
            r.contents() == plugins@,
    {
        FrozenPluginContainer { plugins }
    }

    /// Keeps the plugins of `registry`, in ascending order of class name.
    pub fn from<F: Fn(&str) -> Vec<String>, L, Fac>(registry: PluginRegistry<F, L, Fac, P>) -> (r:
        Self)
        ensures
            r.contents() == registry.plugin_seq(),
    {
        Self::new(registry.drain())
    }
}

impl<P> PluginContainer<P> for FrozenPluginContainer<P> {
    closed spec fn contents(&self) -> Seq<P> {
        self.plugins@
    }

    fn is_empty(&self) -> (r: bool) {
        self.plugins.len() == 0
    }

    fn plugin_count(&self) -> (r: usize) {
        self.plugins.len()
    }

    fn plugin(&self, i: usize) -> (r: &P) {
        &self.plugins[i]
    }

    fn iter(&self) -> (r: Vec<&P>) {
        let mut r: Vec<&P> = Vec::new();
        let mut i: usize = 0;
        while i < self.plugins.len()
            invariant
                i <= self.plugins@.len(),
                r@.len() == i,
                forall|j: int| 0 <= j < i ==> *r@[j] == self.plugins@[j],
            decreases self.plugins@.len() - i,
        {
            r.push(&self.plugins[i]);
            i = i + 1;
        }
        r
    }
}

/// The kinds of plugin.
#[derive(Clone, Copy, Debug)]
pub enum PluginKind {
    /// Plugins that edit connection costs.
    ConnectCost,
    /// Plugins that rewrite the input text.
    InputText,
    /// Plugins that provide out-of-vocabulary words.
    Oov,
    /// Plugins that rewrite the lattice path.
    PathRewrite,
}

/// The name of a plugin kind, as used in error contexts.
pub open spec fn kind_name(kind: PluginKind) -> Seq<char> {
    match kind {
        PluginKind::ConnectCost => "connect_cost"@,
        PluginKind::InputText => "input_text"@,
        PluginKind::Oov => "oov"@,
        PluginKind::PathRewrite => "path_rewrite"@,
    }
}

impl PluginKind {
    /// The name of this kind, which is the context given to its loading errors.
    pub fn name(&self) -> (r: String)
        ensures
            r@ == kind_name(*self),
    {
        match self {
            PluginKind::ConnectCost => String::from_str("connect_cost"),
            PluginKind::InputText => String::from_str("input_text"),
            PluginKind::Oov => String::from_str("oov"),
            PluginKind::PathRewrite => String::from_str("path_rewrite"),
        }
    }
}

/// The kind loaded after `done`, in the order connection cost, input text,
/// out-of-vocabulary, path rewrite; the first kind when nothing is loaded yet.
pub open spec fn kind_after(done: Option<PluginKind>) -> Option<PluginKind> {
    match done {
        None => Some(PluginKind::ConnectCost),
        Some(PluginKind::ConnectCost) => Some(PluginKind::InputText),
        Some(PluginKind::InputText) => Some(PluginKind::Oov),
        Some(PluginKind::Oov) => Some(PluginKind::PathRewrite),
        Some(PluginKind::PathRewrite) => None,
    }
}

/// The kind whose plugins are loaded after those of `done` (see [`kind_after`]).
pub fn next_kind(done: Option<PluginKind>) -> (r: Option<PluginKind>)
    ensures
        r == kind_after(done),
{
    match done {
        None => Some(PluginKind::ConnectCost),
        Some(PluginKind::ConnectCost) => Some(PluginKind::InputText),
        Some(PluginKind::InputText) => Some(PluginKind::Oov),
        Some(PluginKind::Oov) => Some(PluginKind::PathRewrite),
        Some(PluginKind::PathRewrite) => None,
    }
}

/// The error `e` that stopped the loading of the plugins of `kind`, with the
/// kind's name as context.
pub fn fail_in<E>(kind: PluginKind, e: LoadError<E>) -> (r: LoadError<E>)
    ensures
        r matches LoadError::WithContext { context, cause } && context@ == kind_name(kind) && *cause
            == e,
{
    e.with_context(kind.name())
}

/// Access to the plugins of every kind.
pub trait Plugins {
    /// What holds the connection-cost plugins.
    type ConnectCost;
    /// What holds the input-text plugins.
    type InputText;
    /// What holds the out-of-vocabulary plugins.
    type Oov;
    /// What holds the path-rewrite plugins.
    type PathRewrite;

    /// The connection-cost plugins.
    fn connect_cost(&self) -> &Self::ConnectCost;

    /// The input-text plugins.
    fn input_text(&self) -> &Self::InputText;

    /// The out-of-vocabulary plugins.
    fn oov(&self) -> &Self::Oov;

    /// The path-rewrite plugins.
    fn path_rewrite(&self) -> &Self::PathRewrite;
}

/// The loaded plugins of every kind, fixed.
pub struct PluginContainers<A, B, C, D> {
    connect_cost: FrozenPluginContainer<A>,
    input_text: FrozenPluginContainer<B>,
    oov: FrozenPluginContainer<C>,
    path_rewrite: FrozenPluginContainer<D>,
}

impl<A, B, C, D> PluginContainers<A, B, C, D> {
    /// The connection-cost plugins held.
    pub closed spec fn connect_cost_plugins(&self) -> Seq<A> {
        self.connect_cost.contents()
    }

    /// The input-text plugins held.
    pub closed spec fn input_text_plugins(&self) -> Seq<B> {
        self.input_text.contents()
    }

    /// The out-of-vocabulary plugins held.
    pub closed spec fn oov_plugins(&self) -> Seq<C> {
        self.oov.contents()
    }

    /// The path-rewrite plugins held.
    pub closed spec fn path_rewrite_plugins(&self) -> Seq<D> {
        self.path_rewrite.contents()
    }

    /// Puts together the plugins loaded for each kind.
    pub fn new(
        connect_cost: FrozenPluginContainer<A>,
        input_text: FrozenPluginContainer<B>,
        oov: FrozenPluginContainer<C>,
        path_rewrite: FrozenPluginContainer<D>,
    ) -> (r: Self)
        ensures
            r.connect_cost_plugins() == connect_cost.contents(),
            r.input_text_plugins() == input_text.contents(),
            r.oov_plugins() == oov.contents(),
            r.path_rewrite_plugins() == path_rewrite.contents(),
    {
        PluginContainers { connect_cost, input_text, oov, path_rewrite }
    }
}

impl<A, B, C, D> Plugins for PluginContainers<A, B, C, D> {
    type ConnectCost = FrozenPluginContainer<A>;

    type InputText = FrozenPluginContainer<B>;

    type Oov = FrozenPluginContainer<C>;

    type PathRewrite = FrozenPluginContainer<D>;

    fn connect_cost(&self) -> (r: &FrozenPluginContainer<A>)
        ensures
            r.contents() == self.connect_cost_plugins(),
    {
        &self.connect_cost
    }

    fn input_text(&self) -> (r: &FrozenPluginContainer<B>)
        ensures
            r.contents() == self.input_text_plugins(),
    {
        &self.input_text
    }

    fn oov(&self) -> (r: &FrozenPluginContainer<C>)
        ensures
            r.contents() == self.oov_plugins(),
    {
        &self.oov
    }

    fn path_rewrite(&self) -> (r: &FrozenPluginContainer<D>)
        ensures
            r.contents() == self.path_rewrite_plugins(),
    {
        &self.path_rewrite
    }
}

/// The registries of every kind, still open to loading.
pub struct PluginRegistries<A, B, C, D> {
    connect_cost: A,
    input_text: B,
    oov: C,
    path_rewrite: D,
}

impl<A, B, C, D> PluginRegistries<A, B, C, D> {
    /// The registry of each kind, in the order connection cost, input text,
    /// out-of-vocabulary, path rewrite.
    pub closed spec fn parts(&self) -> (A, B, C, D) {
        (self.connect_cost, self.input_text, self.oov, self.path_rewrite)
    }

    /// Puts together the registry of each kind.
    pub fn new(connect_cost: A, input_text: B, oov: C, path_rewrite: D) -> (r: Self)
        ensures
            r.parts() == (connect_cost, input_text, oov, path_rewrite),
    {
        PluginRegistries { connect_cost, input_text, oov, path_rewrite }
    }
}

impl<A, B, C, D> Plugins for PluginRegistries<A, B, C, D> {
    type ConnectCost = A;

    type InputText = B;

    type Oov = C;

    type PathRewrite = D;

    fn connect_cost(&self) -> (r: &A)
        ensures
            *r == self.parts().0,
    {
        &self.connect_cost
    }

    fn input_text(&self) -> (r: &B)
        ensures
            *r == self.parts().1,
    {
        &self.input_text
    }

    fn oov(&self) -> (r: &C)
        ensures
            *r == self.parts().2,
    {
        &self.oov
    }

    fn path_rewrite(&self) -> (r: &D)
        ensures
            *r == self.parts().3,
    {
        &self.path_rewrite
    }
}

} // verus!
