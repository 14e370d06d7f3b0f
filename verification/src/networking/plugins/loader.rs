//! Bookkeeping of plugins loaded from shared libraries, and the metadata
//! that describes a plugin.
use vstd::prelude::*;
use crate::collections::OrderedMap;
use crate::networking::plugins::registry::{infos_for, infos_of_keys, PluginInfo};
use crate::networking::plugins::{not_found, PluginError};
use crate::steps::exec::package_loader::{join_path, path_join};

verus! {

/// A shared library opened by the loader.
#[verifier::external_type_specification]
#[verifier::external_body]
pub struct ExLibrary(libloading::Library);

/// An open library and the name of the plugin it provides.
pub struct LoadedLibrary {
    pub library: libloading::Library,
    pub plugin_name: String,
}

/// The plugins loaded from shared libraries, each under its name. Each
/// library stays open while its plugin is loaded.
pub struct DynamicPluginLoader {
    loaded_plugins: OrderedMap<LoadedLibrary>,
}

impl View for DynamicPluginLoader {
    type V = Set<Seq<char>>;

    /// The names of the loaded plugins.
    closed spec fn view(&self) -> Set<Seq<char>> {
        self.loaded_plugins@.dom()
    }
}

impl DynamicPluginLoader {
    /// The names of the loaded plugins, in increasing order.
    pub closed spec fn loaded_names(&self) -> Seq<Seq<char>> {
        self.loaded_plugins.spec_keys()
    }

    /// A loader with no plugin loaded.
    pub fn new() -> (r: Self)
        ensures
            r@ == Set::<Seq<char>>::empty(),
    {
        let r = DynamicPluginLoader { loaded_plugins: OrderedMap::new() };
        assert(r@ =~= Set::<Seq<char>>::empty());
        r
    }

    /// Records that `library` provides the plugin `name`, unless a plugin of
    /// that name is loaded already.
    pub fn record_loaded(&mut self, name: String, library: libloading::Library) -> (r: Result<(), PluginError>)
        ensures
            old(self)@.contains(name@) ==> r == Err::<(), PluginError>(PluginError::AlreadyLoaded(name))
                && final(self)@ == old(self)@,
            !old(self)@.contains(name@) ==> r is Ok && final(self)@ == old(self)@.insert(name@),
    {
        if self.loaded_plugins.contains_key(name.as_str()) {
            return Err(PluginError::AlreadyLoaded(name));
        }
        let key = name.clone();
        let ghost k = key@;
        self.loaded_plugins.insert(key, LoadedLibrary { library, plugin_name: name });
        assert(self@ =~= old(self)@.insert(k));
        Ok(())
    }

    /// Closes the library of the plugin `name`.
    pub fn unload_plugin(&mut self, name: &str) -> (r: Result<(), PluginError>)
        ensures
            final(self)@ == old(self)@.remove(name@),
            r is Ok <==> old(self)@.contains(name@),
            r is Err ==> not_found(r, name@),
    {
        let out = self.loaded_plugins.remove(name);
        assert(self@ =~= old(self)@.remove(name@));
        match out {
            Some(_) => Ok(()),
            None => Err(PluginError::NotFound(name.to_string())),
        }
    }

    /// The information of every loaded plugin, in increasing order of their
    /// names.
    pub fn list_loaded_plugins(&self) -> (r: Vec<PluginInfo>)
        ensures
            infos_for(r@, self.loaded_names()),
            self.loaded_names().no_duplicates(),
            self@ == self.loaded_names().to_set(),
    {
        infos_of_keys(&self.loaded_plugins)
    }
}

impl Default for DynamicPluginLoader {
    fn default() -> (r: Self)
        ensures
            r@ == Set::<Seq<char>>::empty(),
    {
        DynamicPluginLoader::new()
    }
}

/// Whether `ext` is the extension of a shared library on Linux (`so`),
/// macOS (`dylib`) or Windows (`dll`).
pub open spec fn library_extension(ext: Seq<char>) -> bool {
    ext == "so"@ || ext == "dylib"@ || ext == "dll"@
}

/// Whether a file extension is that of a shared library.
pub fn is_dynamic_library_extension(ext: &str) -> (r: bool)
    ensures
        r == (ext@ == "so"@ || ext@ == "dylib"@ || ext@ == "dll"@),
        r == library_extension(ext@),
{
    let e = ext.to_string();
    e == String::from_str("so") || e == String::from_str("dylib") || e == String::from_str("dll")
}

/// What an entry of a plugin directory is, as far as finding plugins goes.
#[derive(Debug, Clone, PartialEq, Eq)]
pub enum PluginEntryKind {
    /// A file, with its extension where it has one.
    File(Option<String>),
    /// A directory, and whether the plugin library file is inside it.
    Dir(bool),
    /// Anything else.
    Other,
}

/// Where an entry of a plugin directory leads.
#[derive(Debug, Clone, Copy, PartialEq, Eq)]
pub enum PluginCandidate {
    /// The entry is itself a plugin library.
    Itself,
    /// The entry is a directory whose plugin library file is the plugin.
    LibraryInside,
    /// The entry holds no plugin.
    NotAPlugin,
}

/// Where an entry leads: a file with a shared-library extension is a plugin
/// itself; a directory holding the plugin library file gives that file;
/// anything else gives nothing.
pub open spec fn candidate_of(kind: PluginEntryKind) -> PluginCandidate {
    match kind {
        PluginEntryKind::File(Some(e)) => if e@ == "so"@ || e@ == "dylib"@ || e@ == "dll"@ {
            PluginCandidate::Itself
        } else {
            PluginCandidate::NotAPlugin
        },
        PluginEntryKind::Dir(true) => PluginCandidate::LibraryInside,
        _ => PluginCandidate::NotAPlugin,
    }
}

/// Finding plugins: a file is a plugin itself exactly when its extension is
/// that of a shared library on some platform (`so`, `dylib` or `dll`, as
/// `is_dynamic_library_extension` decides); a directory leads to the plugin
/// library inside it exactly when it holds one; nothing else is a plugin.
pub proof fn lemma_plugin_candidates(kind: PluginEntryKind)
    ensures
        kind matches PluginEntryKind::File(Some(e)) ==> (candidate_of(kind) == PluginCandidate::Itself
            <==> library_extension(e@)),
        kind matches PluginEntryKind::File(Some(e)) ==> candidate_of(kind) != PluginCandidate::LibraryInside,
        kind matches PluginEntryKind::Dir(has_library) ==> candidate_of(kind) == (if has_library {
            PluginCandidate::LibraryInside
        } else {
            PluginCandidate::NotAPlugin
        }),
        (kind is Other || kind == PluginEntryKind::File(None)) ==> candidate_of(kind) == PluginCandidate::NotAPlugin,
        library_extension("so"@) && library_extension("dylib"@) && library_extension("dll"@),
{
}

/// Where an entry of a plugin directory leads.
pub fn plugin_candidate(kind: &PluginEntryKind) -> (r: PluginCandidate)
    ensures
        r == candidate_of(*kind),
{
    match kind {
        PluginEntryKind::File(Some(e)) => if is_dynamic_library_extension(e.as_str()) {
            PluginCandidate::Itself
        } else {
            PluginCandidate::NotAPlugin
        },
        PluginEntryKind::Dir(has_library) => if *has_library {
            PluginCandidate::LibraryInside
        } else {
            PluginCandidate::NotAPlugin
        },
        _ => PluginCandidate::NotAPlugin,
    }
}

/// The directory of plugins under the home directory `home`.
pub fn plugin_dir_in(home: &str) -> (r: String)
    ensures
        r@ == path_join(path_join(home@, ".maestro"@), "plugins"@),
{
    let base = join_path(home, ".maestro");
    join_path(base.as_str(), "plugins")
}

/// What a plugin says of itself.
#[derive(Debug)]
pub struct PluginMetadata {
    pub name: String,
    pub version: String,
    pub description: Option<String>,
    pub author: Option<String>,
}

/// The metadata of a plugin that has no metadata file: named after its
/// directory (or `unknown`), at version 1.0.0.
pub fn default_plugin_metadata(dir_name: Option<&str>) -> (r: PluginMetadata)
    ensures
        r.name@ == (match dir_name {
            Some(n) => n@,
            None => "unknown"@,
        }),
        r.version@ == "1.0.0"@,
        r.description is None,
        r.author is None,
{
    let name = match dir_name {
        Some(n) => n.to_string(),
        None => String::from_str("unknown"),
    };
    PluginMetadata { name, version: String::from_str("1.0.0"), description: None, author: None }
}

/// Checks that the metadata names the plugin and gives its version.
pub fn validate_plugin_metadata(metadata: &PluginMetadata) -> (r: Result<(), PluginError>)
    ensures
        metadata.name@.len() == 0 ==> r == Err::<(), PluginError>(PluginError::EmptyName),
        metadata.name@.len() > 0 && metadata.version@.len() == 0 ==> r == Err::<(), PluginError>(
            PluginError::EmptyVersion,
        ),
        metadata.name@.len() > 0 && metadata.version@.len() > 0 ==> r is Ok,
{
    if metadata.name.unicode_len() == 0 {
        return Err(PluginError::EmptyName);
    }
    if metadata.version.unicode_len() == 0 {
        return Err(PluginError::EmptyVersion);
    }
    Ok(())
}

} // verus!
