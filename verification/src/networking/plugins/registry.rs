//! A registry of sidecar plugins, keyed by their names.
use vstd::prelude::*;
use crate::collections::OrderedMap;
use crate::networking::plugins::{already_registered_in, not_found, PluginError, SidecarPlugin};
use crate::steps::traits::WorkFlowStep;
use crate::steps::kubernetes::sidecar::SidecarContainer;

verus! {

/// What is known of a plugin: its name, version, description and author.
#[derive(Debug, Clone)]
pub struct PluginInfo {
    pub name: String,
    pub version: String,
    pub description: String,
    pub author: String,
}

/// The version reported for plugins that do not give one.
pub open spec fn default_plugin_version() -> Seq<char> {
    "1.0.0"@
}

/// The information reported for a plugin that gives nothing but its name.
pub open spec fn named_info(i: PluginInfo, name: Seq<char>) -> bool {
    &&& i.name@ == name
    &&& i.version@ == default_plugin_version()
    &&& i.description@ == Seq::<char>::empty()
    &&& i.author@ == Seq::<char>::empty()
}

/// The information of a plugin known only by its name.
pub fn info_for(name: &String) -> (r: PluginInfo)
    ensures
        named_info(r, name@),
{
    PluginInfo {
        name: name.clone(),
        version: String::from_str("1.0.0"),
        description: String::new(),
        author: String::new(),
    }
}

/// The information of each name of `names`, in order.
pub open spec fn infos_for(r: Seq<PluginInfo>, names: Seq<Seq<char>>) -> bool {
    &&& r.len() == names.len()
    &&& forall|i: int| 0 <= i < names.len() ==> #[trigger] named_info(r[i], names[i])
}

/// The information of each key of `m`, in the order of the keys.
pub fn infos_of_keys<V>(m: &OrderedMap<V>) -> (r: Vec<PluginInfo>)
    ensures
        infos_for(r@, m.spec_keys()),
        m.spec_keys().no_duplicates(),
        m@.dom() == m.spec_keys().to_set(),
{
    let entries = m.entries();
    let mut out: Vec<PluginInfo> = Vec::new();
    let mut i: usize = 0;
    while i < entries.len()
        invariant
            i <= entries@.len(),
            crate::collections::entry_keys(entries@) == m.spec_keys(),
            out@.len() == i,
            forall|j: int| 0 <= j < i ==> #[trigger] named_info(out@[j], m.spec_keys()[j]),
        decreases entries@.len() - i,
    {
        assert(m.spec_keys()[i as int] == entries@[i as int].0@);
        out.push(info_for(&entries[i].0));
        i = i + 1;
    }
    out
}

/// The registered plugins, each under its name.
pub struct PluginRegistry {
    plugins: OrderedMap<Box<dyn SidecarPlugin>>,
}

/// `r` reports that a plugin named `name` is registered already.
pub open spec fn already_registered(r: Result<(), PluginError>, name: Seq<char>) -> bool {
    match r {
        Err(PluginError::AlreadyRegistered(n)) => n@ == name,
        _ => false,
    }
}

/// What installing a plugin gives back for the outcome `out` of its
/// `create_sidecar`: success when the sidecar was made, else its error.
pub open spec fn install_outcome(out: Result<SidecarContainer, PluginError>) -> Result<(), PluginError> {
    match out {
        Ok(_) => Ok(()),
        Err(e) => Err(e),
    }
}

/// `m` with `v` stored under `k`. The value comes first, so that its own
/// type fixes `V`.
pub open spec fn stored<V>(v: V, m: Map<Seq<char>, V>, k: Seq<char>) -> Map<Seq<char>, V> {
    m.insert(k, v)
}

/// Stores `v` under `k` in `m`. The value comes first, so that its own type
/// fixes `V`.
fn store<V>(v: V, m: &mut OrderedMap<V>, k: String)
    ensures
        final(m)@ == stored(v, old(m)@, k@),
{
    m.insert(k, v)
}

/// `n` is a name that `name` of `plugin` may report.
pub open spec fn reported_name<P: SidecarPlugin + ?Sized>(plugin: &P, n: &str) -> bool {
    call_ensures(P::name, (plugin,), n)
}

/// The name that `plugin` reports.
fn name_of<P: SidecarPlugin + ?Sized>(plugin: &P) -> (r: &str)
    ensures
        reported_name(plugin, r),
{
    plugin.name()
}

/// `out` is an outcome that `create_sidecar` of `plugin` may give.
pub open spec fn sidecar_outcome<P: SidecarPlugin + ?Sized>(plugin: &P, out: Result<SidecarContainer, PluginError>) -> bool {
    call_ensures(P::create_sidecar, (plugin,), out)
}

/// The sidecar of `plugin`, as its `create_sidecar` makes it.
fn make_sidecar<P: SidecarPlugin + ?Sized>(plugin: &P) -> (r: Result<SidecarContainer, PluginError>)
    ensures
        sidecar_outcome(plugin, r),
{
    plugin.create_sidecar()
}

impl View for PluginRegistry {
    type V = Set<Seq<char>>;

    /// The names of the registered plugins.
    open spec fn view(&self) -> Set<Seq<char>> {
        self.plugins_map().dom()
    }
}

impl PluginRegistry {
    /// Each registered plugin under its name.
    pub closed spec fn plugins_map(&self) -> Map<Seq<char>, Box<dyn SidecarPlugin>> {
        self.plugins@
    }

    /// The names of the registered plugins, in increasing order.
    pub closed spec fn registered_names(&self) -> Seq<Seq<char>> {
        self.plugins.spec_keys()
    }

    /// A registry with no plugin.
    pub fn new() -> (r: Self)
        ensures
            r.plugins_map() == Map::<Seq<char>, Box<dyn SidecarPlugin>>::empty(),
            r@ == Set::<Seq<char>>::empty(),
    {
        let r = PluginRegistry { plugins: OrderedMap::new() };
        assert(r@ =~= Set::<Seq<char>>::empty());
        r
    }

    /// Registers `plugin` under the name it reports, unless a plugin of that
    /// name is registered already.
    pub fn register_plugin(&mut self, plugin: Box<dyn SidecarPlugin>) -> (r: Result<(), PluginError>)
        ensures
            exists|n: &str|
                #![trigger reported_name::<dyn SidecarPlugin>(&*plugin, n)]
                reported_name::<dyn SidecarPlugin>(&*plugin, n) && registered_as(*old(self), *final(self), &plugin, n@, r),
    {
        let text = name_of::<dyn SidecarPlugin>(&*plugin);
        let ghost p = plugin;
        let name = text.to_string();
        if self.plugins.contains_key(name.as_str()) {
            let r = Err(PluginError::AlreadyRegistered(name));
            assert(registered_as(*old(self), *self, &p, text@, r));
            return r;
        }
        store(plugin, &mut self.plugins, name);
        assert(reported_name::<dyn SidecarPlugin>(&*p, text));
        assert(registered_as(*old(self), *self, &p, text@, Ok(())));
        Ok(())
    }

    /// The plugin registered under `name`, if any.
    pub fn get_plugin(&self, name: &str) -> (r: Option<&Box<dyn SidecarPlugin>>)
        ensures
            r is Some <==> self@.contains(name@),
            r matches Some(p) ==> *p == self.plugins_map()[name@],
    {
        self.plugins.get(name)
    }

    /// The information of every registered plugin, in increasing order of
    /// their names.
    pub fn list_plugins(&self) -> (r: Vec<PluginInfo>)
        ensures
            infos_for(r@, self.registered_names()),
            self.registered_names().no_duplicates(),
            self@ == self.registered_names().to_set(),
    {
        infos_of_keys(&self.plugins)
    }

    /// Removes the plugin registered under `name`.
    pub fn unregister_plugin(&mut self, name: &str) -> (r: Result<(), PluginError>)
        ensures
            final(self).plugins_map() == old(self).plugins_map().remove(name@),
            r is Ok <==> old(self)@.contains(name@),
            r is Err ==> not_found(r, name@),
    {
        let out = self.plugins.remove(name);
        assert(self@ =~= old(self)@.remove(name@));
        match out {
            Some(_) => Ok(()),
            None => Err(PluginError::NotFound(name.to_string())),
        }
    }

    /// Checks that the plugin `plugin_name` is registered and can make its
    /// sidecar. The sidecar is not attached to the step.
    pub fn install_plugin_to_step<S: WorkFlowStep>(&self, plugin_name: &str, step: &mut S) -> (r: Result<(), PluginError>)
        ensures
            !self@.contains(plugin_name@) ==> not_found(r, plugin_name@),
            self@.contains(plugin_name@) ==> exists|out: Result<SidecarContainer, PluginError>|
                sidecar_outcome::<dyn SidecarPlugin>(&*self.plugins_map()[plugin_name@], out) && r
                    == install_outcome(out),
    {
        match self.get_plugin(plugin_name) {
            None => Err(PluginError::NotFound(plugin_name.to_string())),
            Some(plugin) => {
                let out = make_sidecar::<dyn SidecarPlugin>(&**plugin);
                let r = match out {
                    Ok(_) => Ok(()),
                    Err(e) => Err(e),
                };
                assert(sidecar_outcome::<dyn SidecarPlugin>(&*self.plugins_map()[plugin_name@], out)
                    && r == install_outcome(out));
                r
            },
        }
    }
}

/// `after` and `r` are what registering `plugin` under the name `n` that it
/// reports does to `before`: refused, with nothing changed, when a plugin of
/// that name is registered; otherwise `plugin` is stored under `n`.
pub open spec fn registered_as(
    before: PluginRegistry,
    after: PluginRegistry,
    plugin: &Box<dyn SidecarPlugin>,
    n: Seq<char>,
    r: Result<(), PluginError>,
) -> bool {
    &&& before@.contains(n) ==> already_registered(r, n) && after.plugins_map() == before.plugins_map()
    &&& !before@.contains(n) ==> r is Ok && after.plugins_map() == stored(*plugin, before.plugins_map(), n)
}

/// Registering a plugin fails exactly when its name is taken; the plugin
/// that held the name then stays. Otherwise the registered names gain the
/// plugin's name, the registry holds that very plugin under it (so
/// `get_plugin` with the name hands it back), and every other plugin stays.
pub proof fn lemma_registration_law(
    before: PluginRegistry,
    after: PluginRegistry,
    plugin: &Box<dyn SidecarPlugin>,
    n: Seq<char>,
    r: Result<(), PluginError>,
)
    requires
        registered_as(before, after, plugin, n, r),
    ensures
        r is Err <==> before@.contains(n),
        r is Err ==> already_registered(r, n) && after@ == before@ && after.plugins_map()[n]
            == before.plugins_map()[n],
        r is Ok ==> after@ == before@.insert(n) && after.plugins_map()[n] == *plugin,
        forall|m: Seq<char>| #[trigger] before@.contains(m) && m != n ==> after.plugins_map()[m]
            == before.plugins_map()[m],
{
    if !before@.contains(n) {
        assert(after@ =~= before@.insert(n));
    }
}

impl Default for PluginRegistry {
    fn default() -> (r: Self)
        ensures
            r.plugins_map() == Map::<Seq<char>, Box<dyn SidecarPlugin>>::empty(),
            r@ == Set::<Seq<char>>::empty(),
    {
        PluginRegistry::new()
    }
}

} // verus!
