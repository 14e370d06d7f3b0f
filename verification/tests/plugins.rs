use k8s_maestro::networking::plugins::loader::{
    default_plugin_metadata, is_dynamic_library_extension, plugin_dir_in, validate_plugin_metadata,
    DynamicPluginLoader, PluginMetadata,
};
use k8s_maestro::networking::plugins::loader::{plugin_candidate, PluginCandidate, PluginEntryKind};
use k8s_maestro::networking::plugins::registry::PluginRegistry;
use k8s_maestro::networking::plugins::{PluginError, SidecarPlugin};
use k8s_maestro::steps::kubernetes::sidecar::SidecarContainer;
use k8s_maestro::steps::traits::WorkFlowStep;

struct MockPlugin {
    name: String,
    image: String,
}

impl MockPlugin {
    fn new(name: &str, image: &str) -> Self {
        Self { name: name.to_string(), image: image.to_string() }
    }
}

impl SidecarPlugin for MockPlugin {
    fn name(&self) -> &str {
        &self.name
    }

    fn image(&self) -> &str {
        &self.image
    }

    fn create_sidecar(&self) -> Result<SidecarContainer, PluginError> {
        Ok(SidecarContainer::new(self.image(), self.name()))
    }
}

struct MockStep {
    id: String,
}

impl WorkFlowStep for MockStep {
    fn step_id(&self) -> &str {
        &self.id
    }
}

#[test]
fn test_plugin_trait() {
    let plugin = MockPlugin::new("test-plugin", "nginx:latest");
    assert_eq!(plugin.name(), "test-plugin");
    assert_eq!(plugin.image(), "nginx:latest");
}

#[test]
fn test_default_config() {
    let plugin = MockPlugin::new("test-plugin", "nginx:latest");
    let config = plugin.default_config();
    assert!(config.is_empty());
}

#[test]
fn test_create_sidecar() {
    let plugin = MockPlugin::new("test-plugin", "nginx:latest");
    let _sidecar = plugin.create_sidecar().unwrap();
}

#[test]
fn test_validate_config() {
    let plugin = MockPlugin::new("test-plugin", "nginx:latest");
    let config = k8s_maestro::collections::OrderedMap::new();
    assert!(plugin.validate_config(&config).is_ok());
}

#[test]
fn test_plugin_registration() {
    let mut registry = PluginRegistry::new();
    let plugin = Box::new(MockPlugin::new("test-plugin", "nginx:latest"));
    assert!(registry.register_plugin(plugin).is_ok());
}

#[test]
fn test_duplicate_registration() {
    let mut registry = PluginRegistry::new();
    let plugin1 = Box::new(MockPlugin::new("test-plugin", "nginx:latest"));
    let plugin2 = Box::new(MockPlugin::new("test-plugin", "nginx:1.14"));
    assert!(registry.register_plugin(plugin1).is_ok());
    assert!(registry.register_plugin(plugin2).is_err());
}

#[test]
fn test_plugin_retrieval() {
    let mut registry = PluginRegistry::new();
    let plugin = Box::new(MockPlugin::new("test-plugin", "nginx:latest"));
    registry.register_plugin(plugin).unwrap();
    assert!(registry.get_plugin("test-plugin").is_some());
    assert!(registry.get_plugin("unknown").is_none());
}

#[test]
fn test_plugin_listing() {
    let mut registry = PluginRegistry::new();
    let plugin1 = Box::new(MockPlugin::new("plugin1", "nginx:latest"));
    let plugin2 = Box::new(MockPlugin::new("plugin2", "fluentd:v1.14"));
    registry.register_plugin(plugin1).unwrap();
    registry.register_plugin(plugin2).unwrap();
    let plugins = registry.list_plugins();
    assert_eq!(plugins.len(), 2);
}

#[test]
fn test_plugin_installation_to_step() {
    let mut registry = PluginRegistry::new();
    let plugin = Box::new(MockPlugin::new("test-plugin", "nginx:latest"));
    registry.register_plugin(plugin).unwrap();
    let mut step = MockStep { id: "test-step".to_string() };
    assert!(registry.install_plugin_to_step("test-plugin", &mut step).is_ok());
    assert!(registry.install_plugin_to_step("unknown", &mut step).is_err());
}

#[test]
fn test_plugin_unregistration() {
    let mut registry = PluginRegistry::new();
    let plugin = Box::new(MockPlugin::new("test-plugin", "nginx:latest"));
    registry.register_plugin(plugin).unwrap();
    assert!(registry.unregister_plugin("test-plugin").is_ok());
    assert!(registry.unregister_plugin("test-plugin").is_err());
}

#[test]
fn test_registry_errors_and_listing_order() {
    let mut registry = PluginRegistry::default();
    registry.register_plugin(Box::new(MockPlugin::new("zeta", "a"))).unwrap();
    registry.register_plugin(Box::new(MockPlugin::new("alpha", "b"))).unwrap();
    let err = registry.register_plugin(Box::new(MockPlugin::new("zeta", "c"))).unwrap_err();
    assert_eq!(err, PluginError::AlreadyRegistered("zeta".to_string()));
    assert_eq!(err.to_string(), "Plugin 'zeta' already registered");
    let infos = registry.list_plugins();
    assert_eq!(infos[0].name, "alpha");
    assert_eq!(infos[1].name, "zeta");
    assert_eq!(infos[0].version, "1.0.0");
    assert_eq!(infos[0].description, "");
    let missing = registry.unregister_plugin("nope").unwrap_err();
    assert_eq!(missing.to_string(), "Plugin 'nope' not found");
}

struct FailingPlugin;

impl SidecarPlugin for FailingPlugin {
    fn name(&self) -> &str {
        "broken"
    }

    fn image(&self) -> &str {
        "busybox"
    }

    fn create_sidecar(&self) -> Result<SidecarContainer, PluginError> {
        Err(PluginError::Failed("no sidecar today".to_string()))
    }
}

#[test]
fn test_duplicate_keeps_first_plugin() {
    let mut registry = PluginRegistry::new();
    registry.register_plugin(Box::new(MockPlugin::new("dup", "first:1"))).unwrap();
    let err = registry.register_plugin(Box::new(MockPlugin::new("dup", "second:2"))).unwrap_err();
    assert_eq!(err, PluginError::AlreadyRegistered("dup".to_string()));
    assert_eq!(registry.get_plugin("dup").unwrap().image(), "first:1");
    registry.register_plugin(Box::new(MockPlugin::new("other", "third:3"))).unwrap();
    assert_eq!(registry.get_plugin("other").unwrap().image(), "third:3");
    assert_eq!(registry.get_plugin("dup").unwrap().image(), "first:1");
}

#[test]
fn test_install_passes_on_plugin_error() {
    let mut registry = PluginRegistry::new();
    registry.register_plugin(Box::new(FailingPlugin)).unwrap();
    let mut step = MockStep { id: "s".to_string() };
    let err = registry.install_plugin_to_step("broken", &mut step).unwrap_err();
    assert_eq!(err, PluginError::Failed("no sidecar today".to_string()));
    let missing = registry.install_plugin_to_step("absent", &mut step).unwrap_err();
    assert_eq!(missing, PluginError::NotFound("absent".to_string()));
}

#[test]
fn test_plugin_loader_creation() {
    let loader = DynamicPluginLoader::new();
    let plugins = loader.list_loaded_plugins();
    assert!(plugins.is_empty());
}

#[test]
fn test_plugin_loader_default() {
    let loader = DynamicPluginLoader::default();
    let plugins = loader.list_loaded_plugins();
    assert!(plugins.is_empty());
}

#[test]
fn test_unload_nonexistent_plugin() {
    let mut loader = DynamicPluginLoader::new();
    let result = loader.unload_plugin("nonexistent");
    assert!(result.is_err());
}

#[test]
fn test_unload_loaded_plugin() {
    let mut loader = DynamicPluginLoader::new();
    let result = loader.unload_plugin("nonexistent");
    assert!(result.is_err());
    assert!(loader.list_loaded_plugins().is_empty());
}

#[test]
fn test_library_extension_check() {
    assert!(is_dynamic_library_extension("so"));
    assert!(is_dynamic_library_extension("dylib"));
    assert!(is_dynamic_library_extension("dll"));
    assert!(!is_dynamic_library_extension("txt"));
    assert!(!is_dynamic_library_extension("rs"));
}

#[test]
fn test_plugin_candidates() {
    assert_eq!(plugin_candidate(&PluginEntryKind::File(Some("so".to_string()))), PluginCandidate::Itself);
    assert_eq!(plugin_candidate(&PluginEntryKind::File(Some("dll".to_string()))), PluginCandidate::Itself);
    assert_eq!(plugin_candidate(&PluginEntryKind::File(Some("txt".to_string()))), PluginCandidate::NotAPlugin);
    assert_eq!(plugin_candidate(&PluginEntryKind::File(None)), PluginCandidate::NotAPlugin);
    assert_eq!(plugin_candidate(&PluginEntryKind::Dir(true)), PluginCandidate::LibraryInside);
    assert_eq!(plugin_candidate(&PluginEntryKind::Dir(false)), PluginCandidate::NotAPlugin);
    assert_eq!(plugin_candidate(&PluginEntryKind::Other), PluginCandidate::NotAPlugin);
}

#[test]
fn test_default_plugin_dir() {
    let dir = plugin_dir_in("/home/user");
    assert_eq!(dir, "/home/user/.maestro/plugins");
    assert!(dir.contains(".maestro"));
    assert!(dir.contains("plugins"));
    assert_eq!(plugin_dir_in("/root/"), "/root/.maestro/plugins");
}

#[test]
fn test_parse_metadata_invalid_empty_name() {
    let metadata = PluginMetadata {
        name: String::new(),
        version: "1.0.0".to_string(),
        description: None,
        author: None,
    };
    assert!(validate_plugin_metadata(&metadata).is_err());
}

#[test]
fn test_parse_metadata_invalid_empty_version() {
    let metadata = PluginMetadata {
        name: "test-plugin".to_string(),
        version: String::new(),
        description: None,
        author: None,
    };
    assert!(validate_plugin_metadata(&metadata).is_err());
}

#[test]
fn test_parse_metadata_valid() {
    let metadata = PluginMetadata {
        name: "test-plugin".to_string(),
        version: "1.0.0".to_string(),
        description: Some("Test plugin".to_string()),
        author: Some("Test Author".to_string()),
    };
    assert!(validate_plugin_metadata(&metadata).is_ok());
}

#[test]
fn test_metadata_errors_and_defaults() {
    let empty = PluginMetadata { name: String::new(), version: String::new(), description: None, author: None };
    assert_eq!(validate_plugin_metadata(&empty), Err(PluginError::EmptyName));
    assert_eq!(PluginError::EmptyName.to_string(), "Plugin name cannot be empty");
    assert_eq!(PluginError::EmptyVersion.to_string(), "Plugin version cannot be empty");
    let named = default_plugin_metadata(Some("my-plugin"));
    assert_eq!(named.name, "my-plugin");
    assert_eq!(named.version, "1.0.0");
    assert_eq!(default_plugin_metadata(None).name, "unknown");
}
