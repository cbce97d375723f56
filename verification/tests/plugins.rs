use rust_core::agent::plugins::{PluginBackend, PluginInfo, PluginManifest, PluginRegistry};

fn make_native(name: &str) -> PluginInfo {
    PluginInfo::new(name, &format!("Native plugin: {name}"), PluginBackend::Native)
}

fn make_ts(name: &str) -> PluginInfo {
    PluginInfo::new(name, &format!("TS plugin: {name}"), PluginBackend::TypeScript)
}

fn make_py(name: &str) -> PluginInfo {
    PluginInfo::new(name, &format!("Python plugin: {name}"), PluginBackend::Python)
}

#[test]
fn test_plugin_registry_register_and_list() {
    let mut registry = PluginRegistry::new();
    assert!(registry.is_empty());
    registry.register(make_native("hello"));
    registry.register(make_ts("ts_greet"));
    registry.register(make_py("py_analyze"));
    assert_eq!(registry.len(), 3);
    let plugins = registry.list();
    assert_eq!(plugins.len(), 3);
    let names: Vec<String> = plugins.into_iter().map(|p| p.name).collect();
    assert!(names.contains(&"hello".to_string()));
    assert!(names.contains(&"ts_greet".to_string()));
    assert!(names.contains(&"py_analyze".to_string()));
}

#[test]
fn test_plugin_call_not_found() {
    let registry = PluginRegistry::new();
    let result = registry.route("nonexistent");
    assert!(result.is_err());
    assert_eq!(result.unwrap_err(), "Plugin 'nonexistent' not found in registry");
}

#[test]
fn test_fallback_chain() {
    let mut registry = PluginRegistry::new();
    registry.register(make_ts("analyze"));
    let result = registry.route_with_fallback("analyze", PluginBackend::Native).unwrap();
    assert_eq!(result.backend, PluginBackend::TypeScript);
    let missing = registry.route_with_fallback("other", PluginBackend::Python);
    assert_eq!(missing.unwrap_err(), "Plugin 'other' not found with fallback from Python");
}

#[test]
fn test_plugin_info_metadata() {
    let info = make_native("test");
    assert_eq!(info.name, "test");
    assert_eq!(info.backend, PluginBackend::Native);
    assert!(info.enabled);
    assert_eq!(info.version, "0.1.0");
}

#[test]
fn test_plugin_backend_display() {
    assert_eq!(PluginBackend::Native.to_string(), "Native");
    assert_eq!(PluginBackend::TypeScript.to_string(), "TypeScript");
    assert_eq!(PluginBackend::Python.to_string(), "Python");
}

#[test]
fn test_unregister_plugin() {
    let mut registry = PluginRegistry::new();
    registry.register(make_native("temp"));
    assert_eq!(registry.len(), 1);
    let removed = registry.unregister("temp");
    assert!(removed.is_some());
    assert_eq!(registry.len(), 0);
}

#[test]
fn test_list_enabled() {
    let mut registry = PluginRegistry::new();
    registry.register(make_native("a"));
    registry.register(make_ts("b"));
    let enabled = registry.list_enabled();
    assert_eq!(enabled.len(), 2);
    assert!(enabled.iter().all(|p| p.enabled));
}

#[test]
fn register_same_name_and_backend_replaces() {
    let mut registry = PluginRegistry::new();
    registry.register(make_native("x"));
    registry.register(make_py("x"));
    assert_eq!(registry.len(), 2);
    assert_eq!(registry.get("x").unwrap().backend, PluginBackend::Native);
    let mut again = make_py("x");
    again.description = "second".to_string();
    registry.register(again);
    assert_eq!(registry.len(), 2);
    assert_eq!(
        registry.route_with_fallback("x", PluginBackend::Python).unwrap().description,
        "second"
    );
    let mut disabled = make_ts("off");
    disabled.enabled = false;
    registry.register(disabled);
    assert_eq!(registry.list_enabled().len(), 2);
    assert_eq!(registry.list().len(), 3);
}

#[test]
fn call_goes_to_native_before_typescript() {
    let mut registry = PluginRegistry::new();
    registry.register(make_ts("x"));
    registry.register(make_native("x"));
    assert_eq!(registry.route("x").unwrap().backend, PluginBackend::Native);
    assert_eq!(registry.unregister("x").unwrap().backend, PluginBackend::Native);
    assert_eq!(registry.route("x").unwrap().backend, PluginBackend::TypeScript);
}

#[test]
fn info_from_manifest_defaults_version() {
    let manifest = PluginManifest {
        name: "m".into(),
        description: "d".into(),
        backend: PluginBackend::Python,
        version: None,
        entry_point: Some("main.py".into()),
    };
    let info = PluginInfo::from_manifest(&manifest, "/p/plugin.toml");
    assert_eq!(info.version, "0.1.0");
    assert!(info.enabled);
    assert_eq!(info.source_path.as_deref(), Some("/p/plugin.toml"));
    let mut registry = PluginRegistry::new();
    registry.add_scan_dir("/plugins".into());
    assert_eq!(registry.scan_dirs(), &["/plugins".to_string()]);
}
