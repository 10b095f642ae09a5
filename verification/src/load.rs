//! Loading every configured plugin of one kind into its registry.
//!
//! For each plugin's settings, in order: the class is read from the settings;
//! a factory registered under the class builds the plugin; otherwise a class
//! with the bundled prefix is looked up among the bundled plugins; otherwise,
//! or when no bundled plugin has that name, the plugin is loaded from a shared
//! object. The plugin is then set up and stored under its class, replacing any
//! plugin stored under that class before. The first failure stops the loading.
//!
//! Building, looking up, loading and setting up plugins is done by the caller:
//! [`LoadAll`] says what to do next and takes the outcome of each step.

use vstd::prelude::*;
use vstd::string::*;

use crate::config::{extract_plugin_class, plugin_class_of, settings_error_message, PluginSettings};
use crate::error::LoadError;
use crate::registry::{bundled_name_of, PluginRegistry, PluginSource};

verus! {

/// Where the loading of the configured plugins stands.
pub enum LoadStage {
    /// About to read the next plugin's settings.
    Ready,
    /// Waiting for the factory to build the plugin of this class.
    Factory(String),
    /// Waiting for the bundled plugin of this class, if there is one.
    Bundled(String),
    /// Waiting for the plugin of this class to be loaded from a shared object.
    SharedObject(String),
    /// Waiting for the plugin of this class to be set up.
    SetUp(String),
    /// Every configured plugin is loaded.
    Finished,
    /// Loading stopped with an error.
    Failed,
}

/// What to do next.
pub enum LoadAction<P, E> {
    /// Build the plugin with the factory registered under `class`, from the
    /// settings at `index`.
    CallFactory { index: usize, class: String },
    /// Look up the bundled plugin called `name`, for the settings at `index`.
    AskBundled { index: usize, name: String },
    /// Load the plugin `class` from a shared object, for the settings at `index`.
    LoadSharedObject { index: usize, class: String },
    /// Set up `plugin`, of class `class`, with the settings at `index`.
    SetUp { index: usize, class: String, plugin: P },
    /// Every configured plugin is loaded.
    Done,
    /// Loading stopped with this error.
    Failed(LoadError<E>),
}

/// The context given to a setup failure of a plugin of class `class`.
pub open spec fn setup_context(class: Seq<char>) -> Seq<char> {
    "plugin "@ + class + " setup"@
}

/// The stage that waits on the plugin of class `class` to be set up.
pub open spec fn is_set_up_stage(stage: LoadStage, class: Seq<char>) -> bool {
    stage matches LoadStage::SetUp(c) && c@ == class
}

/// Starting at the settings at `next`, with factories registered under the
/// names in `factories`, the loading moves to `stage` and asks for `action`.
pub open spec fn chosen<P, E>(
    factories: Set<Seq<char>>,
    settings: Seq<PluginSettings>,
    next: int,
    stage: LoadStage,
    action: LoadAction<P, E>,
) -> bool {
    if next >= settings.len() {
        stage is Finished && action is Done
    } else {
        match plugin_class_of(settings[next]) {
            None => stage is Failed && (action matches LoadAction::Failed(LoadError::InvalidFormat(m))
                && m@ == settings_error_message(settings[next])),
            Some(c) => if factories.contains(c) {
                (stage matches LoadStage::Factory(k) && k@ == c) && (
                action matches LoadAction::CallFactory { index, class } && index == next && class@
                    == c)
            } else {
                match bundled_name_of(c) {
                    Some(short) => (stage matches LoadStage::Bundled(k) && k@ == c) && (
                    action matches LoadAction::AskBundled { index, name } && index == next && name@
                        == short),
                    None => (stage matches LoadStage::SharedObject(k) && k@ == c) && (
                    action matches LoadAction::LoadSharedObject { index, class } && index == next
                        && class@ == c),
                }
            },
        }
    }
}

/// The loading of the configured plugins of one kind, one step at a time.
pub struct LoadAll {
    settings: Vec<PluginSettings>,
    next: usize,
    stage: LoadStage,
}

impl LoadAll {
    /// The plugins' settings, in the order they are loaded.
    pub closed spec fn settings(&self) -> Seq<PluginSettings> {
        self.settings@
    }

    /// The position of the settings being handled; those before it are loaded.
    pub closed spec fn next(&self) -> int {
        self.next as int
    }

    /// Where the loading stands.
    pub closed spec fn stage(&self) -> LoadStage {
        self.stage
    }

    /// The class whose plugin is on its way, in the stages that wait on one.
    pub open spec fn pending_class(&self) -> Option<Seq<char>> {
        match self.stage() {
            LoadStage::Factory(c) => Some(c@),
            LoadStage::Bundled(c) => Some(c@),
            LoadStage::SharedObject(c) => Some(c@),
            LoadStage::SetUp(c) => Some(c@),
            _ => None,
        }
    }

    /// The loading's invariant: it has not gone past the last settings, and it
    /// waits on a plugin only for settings that are there.
    pub closed spec fn wf(&self) -> bool {
        &&& self.next <= self.settings@.len()
        &&& self.pending_class() is Some ==> self.next < self.settings@.len()
    }

    /// Starts loading the plugins with these settings.
    pub fn new(settings: Vec<PluginSettings>) -> (r: LoadAll)
        ensures
            r.wf(),
            r.settings() == settings@,
            r.next() == 0,
            r.stage() is Ready,
    {
        LoadAll { settings, next: 0, stage: LoadStage::Ready }
    }

    /// Reads the settings at the current position and says what to do with
    /// them, or that loading is done.
    pub fn next_action<F: Fn(&str) -> Vec<String>, L, Fac, P, E>(
        &mut self,
        registry: &PluginRegistry<F, L, Fac, P>,
    ) -> (r: LoadAction<P, E>)
        requires
            old(self).wf(),
            old(self).stage() is Ready,
            registry.wf(),
        ensures
            final(self).wf(),
            final(self).settings() == old(self).settings(),
            final(self).next() == old(self).next(),
            chosen(
                registry.factories().dom(),
                old(self).settings(),
                old(self).next(),
                final(self).stage(),
                r,
            ),
            old(self).next() < old(self).settings().len() ==> (old(self).settings()[old(
                self,
            ).next()] matches PluginSettings::Object { class: Some(c) } ==> (
            registry.factories().contains_key(c@) ==> (r matches LoadAction::CallFactory {
                index,
                class,
            } && index == old(self).next() && class@ == c@))),
    {
        if self.next >= self.settings.len() {
            self.stage = LoadStage::Finished;
            return LoadAction::Done;
        }
        let index = self.next;
        match extract_plugin_class::<E>(&self.settings[index]) {
            Err(e) => {
                self.stage = LoadStage::Failed;
                LoadAction::Failed(e)
            },
            Ok(class) => {
                match registry.source_of(class.as_str()) {
                    PluginSource::Factory => {
                        self.stage = LoadStage::Factory(class.clone());
                        LoadAction::CallFactory { index, class }
                    },
                    PluginSource::Bundled(name) => {
                        self.stage = LoadStage::Bundled(class);
                        LoadAction::AskBundled { index, name }
                    },
                    PluginSource::SharedObject => {
                        self.stage = LoadStage::SharedObject(class.clone());
                        LoadAction::LoadSharedObject { index, class }
                    },
                }
            },
        }
    }

    /// The class pending in the current stage.
    fn pending(&self) -> (r: String)
        requires
            self.pending_class() is Some,
        ensures
            Some(r@) == self.pending_class(),
    {
        match &self.stage {
            LoadStage::Factory(c) => c.clone(),
            LoadStage::Bundled(c) => c.clone(),
            LoadStage::SharedObject(c) => c.clone(),
            LoadStage::SetUp(c) => c.clone(),
            _ => {
                assert(false);
                String::new()
            },
        }
    }

    /// Moves on to setting up `plugin`, of the pending class.
    fn to_set_up<P, E>(&mut self, plugin: P) -> (r: LoadAction<P, E>)
        requires
            old(self).wf(),
            old(self).pending_class() is Some,
        ensures
            final(self).wf(),
            final(self).settings() == old(self).settings(),
            final(self).next() == old(self).next(),
            is_set_up_stage(final(self).stage(), old(self).pending_class().unwrap()),
            r matches LoadAction::SetUp { index, class, plugin: p } && index == old(self).next()
                && class@ == old(self).pending_class().unwrap() && p == plugin,
    {
        let class = self.pending();
        self.stage = LoadStage::SetUp(class.clone());
        LoadAction::SetUp { index: self.next, class, plugin }
    }

    /// Takes what the factory returned: the plugin goes on to be set up; a
    /// factory error stops the loading.
    pub fn on_factory<P, E>(&mut self, outcome: Result<P, E>) -> (r: LoadAction<P, E>)
        requires
            old(self).wf(),
            old(self).stage() is Factory,
        ensures
            final(self).wf(),
            final(self).settings() == old(self).settings(),
            final(self).next() == old(self).next(),
            match outcome {
                Ok(plugin) => is_set_up_stage(final(self).stage(), old(self).pending_class().unwrap())
                    && (r matches LoadAction::SetUp { index, class, plugin: p } && index == old(
                    self).next() && class@ == old(self).pending_class().unwrap() && p == plugin),
                Err(e) => final(self).stage() is Failed && r == LoadAction::<P, E>::Failed(
                    LoadError::Raised(e),
                ),
            },
    {
        match outcome {
            Ok(plugin) => self.to_set_up(plugin),
            Err(e) => {
                self.stage = LoadStage::Failed;
                LoadAction::Failed(LoadError::Raised(e))
            },
        }
    }

    /// Takes the bundled plugin found, if any: it goes on to be set up; when
    /// there is none, the plugin is to be loaded from a shared object under
    /// its full class name.
    pub fn on_bundled<P, E>(&mut self, outcome: Option<P>) -> (r: LoadAction<P, E>)
        requires
            old(self).wf(),
            old(self).stage() is Bundled,
        ensures
            final(self).wf(),
            final(self).settings() == old(self).settings(),
            final(self).next() == old(self).next(),
            match outcome {
                Some(plugin) => is_set_up_stage(final(self).stage(), old(self).pending_class().unwrap())
                    && (r matches LoadAction::SetUp { index, class, plugin: p } && index == old(
                    self).next() && class@ == old(self).pending_class().unwrap() && p == plugin),
                None => (final(self).stage() matches LoadStage::SharedObject(k) && Some(k@) == old(
                    self).pending_class()) && (r matches LoadAction::LoadSharedObject {
                    index,
                    class,
                } && index == old(self).next() && Some(class@) == old(self).pending_class()),
            },
    {
        match outcome {
            Some(plugin) => self.to_set_up(plugin),
            None => {
                let class = self.pending();
                self.stage = LoadStage::SharedObject(class.clone());
                LoadAction::LoadSharedObject { index: self.next, class }
            },
        }
    }

    /// Takes the outcome of loading the plugin from a shared object: the
    /// plugin goes on to be set up; an error stops the loading.
    pub fn on_shared_object<P, E>(&mut self, outcome: Result<P, LoadError<E>>) -> (r: LoadAction<
        P,
        E,
    >)
        requires
            old(self).wf(),
            old(self).stage() is SharedObject,
        ensures
            final(self).wf(),
            final(self).settings() == old(self).settings(),
            final(self).next() == old(self).next(),
            match outcome {
                Ok(plugin) => is_set_up_stage(final(self).stage(), old(self).pending_class().unwrap())
                    && (r matches LoadAction::SetUp { index, class, plugin: p } && index == old(
                    self).next() && class@ == old(self).pending_class().unwrap() && p == plugin),
                Err(e) => final(self).stage() is Failed && r == LoadAction::<P, E>::Failed(e),
            },
    {
        match outcome {
            Ok(plugin) => self.to_set_up(plugin),
            Err(e) => {
                self.stage = LoadStage::Failed;
                LoadAction::Failed(e)
            },
        }
    }

    /// Takes `plugin` back with the outcome of its setup. A plugin set up
    /// without error is stored in `registry` under its class, and loading goes
    /// on with the next settings; a setup error stops the loading, with the
    /// context `plugin {class} setup`.
    pub fn on_set_up<F: Fn(&str) -> Vec<String>, L, Fac, P, E>(
        &mut self,
        registry: &mut PluginRegistry<F, L, Fac, P>,
        plugin: P,
        outcome: Result<(), E>,
    ) -> (r: LoadAction<P, E>)
        requires
            old(self).wf(),
            old(self).stage() is SetUp,
            old(registry).wf(),
        ensures
            final(self).wf(),
            final(registry).wf(),
            final(self).settings() == old(self).settings(),
            final(registry).factories() == old(registry).factories(),
            final(registry).loader() == old(registry).loader(),
            match outcome {
                Ok(_) => final(registry).plugins() == old(registry).plugins().insert(
                    old(self).pending_class().unwrap(),
                    plugin,
                ) && final(self).next() == old(self).next() + 1 && chosen(
                    old(registry).factories().dom(),
                    old(self).settings(),
                    old(self).next() + 1,
                    final(self).stage(),
                    r,
                ),
                Err(e) => final(registry).plugins() == old(registry).plugins() && final(self).next()
                    == old(self).next() && final(self).stage() is Failed && (
                r matches LoadAction::Failed(LoadError::WithContext { context, cause })
                    && context@ == setup_context(old(self).pending_class().unwrap()) && *cause
                    == LoadError::<E>::Raised(e)),
            },
    {
        let class = self.pending();
        match outcome {
            Ok(()) => {
                registry.insert_plugin(class, plugin);
                assert(self.next < self.settings.len());
                self.next = self.next + 1;
                self.stage = LoadStage::Ready;
                self.next_action(registry)
            },
            Err(e) => {
                let mut context = String::from_str("plugin ");
                context.append(class.as_str());
                context.append(" setup");
                self.stage = LoadStage::Failed;
                LoadAction::Failed(LoadError::Raised(e).with_context(context))
            },
        }
    }
}

} // verus!
