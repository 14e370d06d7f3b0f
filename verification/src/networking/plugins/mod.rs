//! Sidecar plugins: the trait that a plugin implements, a registry of
//! plugins, and the bookkeeping of plugins loaded from shared libraries.
use vstd::prelude::*;
use crate::collections::OrderedMap;
use crate::steps::kubernetes::sidecar::SidecarContainer;
use crate::steps::result::JsonValue;

pub mod registry;
pub mod loader;

verus! {

/// Why a plugin operation failed.
#[derive(Debug, Clone, PartialEq, Eq)]
pub enum PluginError {
    /// A plugin of this name is registered already.
    AlreadyRegistered(String),
    /// No plugin of this name is registered or loaded.
    NotFound(String),
    /// A plugin of this name is loaded already.
    AlreadyLoaded(String),
    /// The metadata gives an empty name.
    EmptyName,
    /// The metadata gives an empty version.
    EmptyVersion,
    /// Any other failure, with its description.
    Failed(String),
}

impl PluginError {
    /// The description of the error.
    pub open spec fn message(self) -> Seq<char> {
        match self {
            PluginError::AlreadyRegistered(n) => "Plugin '"@ + n@ + "' already registered"@,
            PluginError::NotFound(n) => "Plugin '"@ + n@ + "' not found"@,
            PluginError::AlreadyLoaded(n) => "Plugin '"@ + n@ + "' is already loaded"@,
            PluginError::EmptyName => "Plugin name cannot be empty"@,
            PluginError::EmptyVersion => "Plugin version cannot be empty"@,
            PluginError::Failed(m) => m@,
        }
    }

    /// The description of the error.
    pub fn to_string(&self) -> (r: String)
        ensures
            r@ == self.message(),
    {
        match self {
            PluginError::AlreadyRegistered(n) => quoted("Plugin '", n, "' already registered"),
            PluginError::NotFound(n) => quoted("Plugin '", n, "' not found"),
            PluginError::AlreadyLoaded(n) => quoted("Plugin '", n, "' is already loaded"),
            PluginError::EmptyName => String::from_str("Plugin name cannot be empty"),
            PluginError::EmptyVersion => String::from_str("Plugin version cannot be empty"),
            PluginError::Failed(m) => m.clone(),
        }
    }
}

/// `r` failed because no plugin is named `name`.
pub open spec fn not_found<T>(r: Result<T, PluginError>, name: Seq<char>) -> bool {
    match r {
        Err(PluginError::NotFound(n)) => n@ == name,
        _ => false,
    }
}

/// `e` reports that a plugin of some name in `names` is registered already.
pub open spec fn already_registered_in(e: PluginError, names: Set<Seq<char>>) -> bool {
    match e {
        PluginError::AlreadyRegistered(n) => names.contains(n@),
        _ => false,
    }
}

/// `before`, then `name`, then `after`.
fn quoted(before: &str, name: &String, after: &str) -> (r: String)
    ensures
        r@ == before@ + name@ + after@,
{
    let mut s = String::from_str(before);
    s.append(name.as_str());
    s.append(after);
    s
}

/// A plugin that contributes a sidecar container to the steps of a workflow.
pub trait SidecarPlugin: Send + Sync {
    /// The unique name of the plugin.
    fn name(&self) -> &str;

    /// The container image of the sidecar.
    fn image(&self) -> &str;

    /// The configuration the plugin starts from; empty unless the plugin
    /// says otherwise.
    fn default_config(&self) -> (r: OrderedMap<JsonValue>)
        default_ensures
            r@ == Map::<Seq<char>, JsonValue>::empty(),
    {
        OrderedMap::new()
    }

    /// The sidecar container of the plugin.
    fn create_sidecar(&self) -> Result<SidecarContainer, PluginError>;

    /// Checks a configuration; every configuration passes unless the plugin
    /// says otherwise.
    fn validate_config(&self, config: &OrderedMap<JsonValue>) -> (r: Result<(), PluginError>)
        default_ensures
            r is Ok,
    {
        Ok(())
    }
}

} // verus!
