//! What plugins share.

use crate::error::Error;
use crate::navigation::NavigationEntry;
use std::any::TypeId;
use std::collections::BTreeMap;
use std::sync::Arc;
use vstd::prelude::*;
use vstd::std_specs::cmp::PartialEqSpecImpl;
use vstd::string::StringExecFns;

verus! {

/// The identifier of a type.
#[verifier::external_type_specification]
#[verifier::external_body]
pub struct ExTypeId(TypeId);

/// What plugins share: for each type at most one value of kind `T`, kept
/// under the identifier of that type. Copies of a context share the values.
pub struct PluginContext<T> {
    contexts: Arc<BTreeMap<TypeId, T>>,
}

impl<T> PluginContext<T> {
    /// The values that the context holds, each under its type's identifier.
    pub closed spec fn spec_contexts(&self) -> BTreeMap<TypeId, T> {
        *self.contexts
    }

    /// A context that holds the values of `tree`.
    pub fn new(tree: BTreeMap<TypeId, T>) -> (context: Self)
        ensures
            context.spec_contexts() == tree,
    {
        Self { contexts: Arc::new(tree) }
    }

    /// The values that the context holds, each under its type's identifier.
    pub fn contexts(&self) -> (tree: &BTreeMap<TypeId, T>)
        ensures
            *tree == self.spec_contexts(),
    {
        &*self.contexts
    }
}

impl<T> Clone for PluginContext<T> {
    /// A context that shares this one's values.
    fn clone(&self) -> (copy: Self)
        ensures
            copy.spec_contexts() == self.spec_contexts(),
    {
        Self { contexts: self.contexts.clone() }
    }
}

impl<T> Default for PluginContext<T> {
    /// A context that holds nothing.
    fn default() -> (context: Self)
        ensures
            context.spec_contexts()@ == Map::<TypeId, T>::empty(),
    {
        Self { contexts: Arc::new(BTreeMap::new()) }
    }
}

/// A supplier of one screen.
pub trait Plugin<V>: Send + Sync + 'static {
    /// The name that tells this plugin from the others. A plugin that is to
    /// be reasoned about says here what it is.
    open spec fn spec_name(&self) -> Seq<char> {
        arbitrary()
    }

    /// The name that tells this plugin from the others.
    fn name(&self) -> (name: &'static str)
        ensures
            name@ == self.spec_name(),
    ;

    /// Whether `view` is an outcome that building the plugin's view can have.
    /// A plugin that is to be reasoned about says here what it builds; one
    /// that says nothing may build anything, or fail.
    open spec fn builds(&self, view: Result<V, Error>) -> bool {
        true
    }

    /// Builds the view of the plugin's screen.
    fn get_view(&self) -> (view: Result<V, Error>)
        ensures
            self.builds(view),
    ;
}

/// The plugin behind the default entry: its screen is the view's default.
struct DefaultPlugin;

impl<V: Default> Plugin<V> for DefaultPlugin {
    open spec fn spec_name(&self) -> Seq<char> {
        "DefaultPlugin"@
    }

    /// The default plugin always builds a view: a default of the view's type.
    open spec fn builds(&self, view: Result<V, Error>) -> bool {
        view is Ok && call_ensures(V::default, (), view->Ok_0)
    }

    fn name(&self) -> &'static str {
        "DefaultPlugin"
    }

    fn get_view(&self) -> (view: Result<V, Error>)
        ensures
            view is Ok,
            call_ensures(V::default, (), view->Ok_0),
    {
        Ok(V::default())
    }
}

/// The entry of a plugin's screen. Two entries name the same screen if their
/// plugins have the same name. The name is asked for once, when the entry is
/// made.
#[verifier::reject_recursive_types(V)]
pub struct PluginNavigation<V> {
    name: String,
    plugin: Arc<Box<dyn Plugin<V>>>,
}

impl<V: 'static> PluginNavigation<V> {
    /// The name of the entry's plugin.
    pub closed spec fn spec_name(&self) -> Seq<char> {
        self.name@
    }

    /// The entry of the screen of `plugin`.
    pub fn new<P: Plugin<V>>(plugin: P) -> (entry: Self)
        ensures
            entry.spec_name() == plugin.spec_name(),
    {
        let name = String::from_str(plugin.name());
        Self { name, plugin: Arc::new(Box::new(plugin)) }
    }

    /// The name of the entry's plugin.
    pub fn name(&self) -> (name: &str)
        ensures
            name@ == self.spec_name(),
    {
        self.name.as_str()
    }

    /// Whether `view` is an outcome that building the view of the entry's
    /// plugin can have, as the plugin itself says.
    pub closed spec fn builds(&self, view: Result<V, Error>) -> bool {
        self.plugin.builds(view)
    }

    /// Builds the view of the entry's screen: asks the entry's plugin for its
    /// view and hands on what the plugin built, or its failure.
    pub fn get_view(&self) -> (view: Result<V, Error>)
        ensures
            self.builds(view),
    {
        self.plugin.get_view()
    }
}

impl<V: 'static> Clone for PluginNavigation<V> {
    /// An entry of the same plugin.
    fn clone(&self) -> (copy: Self)
        ensures
            copy == *self,
    {
        Self { name: self.name.clone(), plugin: self.plugin.clone() }
    }
}

impl<V: Default + 'static> Default for PluginNavigation<V> {
    /// The entry of the default plugin, whose screen is the view's default.
    fn default() -> (entry: Self)
        ensures
            entry.spec_name() == "DefaultPlugin"@,
    {
        PluginNavigation::new(DefaultPlugin)
    }
}

impl<V: 'static> PartialEq for PluginNavigation<V> {
    fn eq(&self, other: &Self) -> (same: bool) {
        self.name == other.name
    }
}

impl<V: 'static> PartialEqSpecImpl for PluginNavigation<V> {
    open spec fn obeys_eq_spec() -> bool {
        true
    }

    open spec fn eq_spec(&self, other: &Self) -> bool {
        self.spec_name() == other.spec_name()
    }
}

impl<V: Default + 'static> NavigationEntry for PluginNavigation<V> {

}

} // verus!
