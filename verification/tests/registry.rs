use clipshot::plugins::{PluginInfo, Registry};

fn descriptor(id: &str, name: &str) -> PluginInfo {
    PluginInfo {
        id: id.to_string(),
        name: name.to_string(),
        version: "1.0.0".to_string(),
        enabled: true,
        path: format!("/plugins/{}", id),
    }
}

fn ids_of(snapshot: &Vec<PluginInfo>) -> Vec<String> {
    let mut ids: Vec<String> = snapshot.iter().map(|d| d.id.clone()).collect();
    ids.sort();
    ids
}

#[test]
fn new_registry_is_empty() {
    let registry = Registry::new();
    assert!(registry.list().is_empty());
    assert!(registry.get("plugin_0").is_none());
}

#[test]
fn insert_then_get_returns_the_descriptor() {
    let mut registry = Registry::new();
    registry.insert(descriptor("a", "Alpha"));
    let found = registry.get("a").unwrap();
    assert_eq!(found.id, "a");
    assert_eq!(found.name, "Alpha");
    assert_eq!(found.version, "1.0.0");
    assert!(found.enabled);
    assert_eq!(found.path, "/plugins/a");
    assert!(registry.get("b").is_none());
}

#[test]
fn insert_under_a_known_id_replaces() {
    let mut registry = Registry::new();
    registry.insert(descriptor("a", "Alpha"));
    registry.insert(descriptor("b", "Beta"));
    registry.insert(descriptor("a", "Again"));
    assert_eq!(registry.list().len(), 2);
    assert_eq!(registry.get("a").unwrap().name, "Again");
    assert_eq!(registry.get("b").unwrap().name, "Beta");
}

#[test]
fn remove_returns_the_descriptor_and_forgets_it() {
    let mut registry = Registry::new();
    registry.insert(descriptor("a", "Alpha"));
    registry.insert(descriptor("b", "Beta"));
    registry.insert(descriptor("c", "Gamma"));
    let removed = registry.remove("b").unwrap();
    assert_eq!(removed.id, "b");
    assert_eq!(removed.name, "Beta");
    assert!(registry.get("b").is_none());
    assert_eq!(ids_of(&registry.list()), vec!["a".to_string(), "c".to_string()]);
}

#[test]
fn remove_of_an_unknown_id_changes_nothing() {
    let mut registry = Registry::new();
    registry.insert(descriptor("a", "Alpha"));
    assert!(registry.remove("zzz").is_none());
    assert_eq!(ids_of(&registry.list()), vec!["a".to_string()]);
    assert!(registry.remove("a").is_some());
    assert!(registry.remove("a").is_none());
    assert!(registry.list().is_empty());
}

#[test]
fn list_is_a_snapshot_not_a_live_view() {
    let mut registry = Registry::new();
    registry.insert(descriptor("a", "Alpha"));
    let snapshot = registry.list();
    registry.insert(descriptor("b", "Beta"));
    registry.remove("a");
    assert_eq!(ids_of(&snapshot), vec!["a".to_string()]);
    assert_eq!(ids_of(&registry.list()), vec!["b".to_string()]);
}

#[test]
fn get_hands_out_a_copy() {
    let mut registry = Registry::new();
    registry.insert(descriptor("a", "Alpha"));
    let mut copy = registry.get("a").unwrap();
    copy.name = "Changed".to_string();
    copy.enabled = false;
    let again = registry.get("a").unwrap();
    assert_eq!(again.name, "Alpha");
    assert!(again.enabled);
}
