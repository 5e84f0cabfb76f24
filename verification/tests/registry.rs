use embeddy::registry::{ModelInfo, ModelRegistry};
use embeddy::Error;

fn model(name: &str, alias: Option<&str>, path: &str) -> ModelInfo {
    ModelInfo {
        name: name.to_string(),
        hf_repo_id: name.to_string(),
        alias: alias.map(|a| a.to_string()),
        model_path: path.to_string(),
        embedding_dim: None,
        downloaded_at: "2024-05-01T10:00:00+00:00".to_string(),
    }
}

#[test]
fn new_registry_is_empty() {
    let registry = ModelRegistry::new();
    assert_eq!(registry.len(), 0);
    assert!(registry.list_models().is_empty());
    assert!(registry.entries().is_empty());
    let registry = ModelRegistry::default();
    assert_eq!(registry.len(), 0);
}

#[test]
fn model_with_alias_is_filed_under_the_alias() {
    let mut registry = ModelRegistry::new();
    registry.add_model(model("org/mini", Some("mini"), "/m/mini"));
    assert_eq!(registry.get_model("mini").unwrap().name, "org/mini");
    assert!(registry.contains("mini"));
    assert!(!registry.contains("org/mini"));
    assert!(matches!(registry.get_model("org/mini"), Err(Error::ModelNotFound(_))));
}

#[test]
fn model_without_alias_is_filed_under_its_name() {
    let mut registry = ModelRegistry::new();
    registry.add_model(model("org/mini", None, "/m/mini"));
    assert_eq!(registry.get_model("org/mini").unwrap().model_path, "/m/mini");
    assert_eq!(model("org/mini", None, "/m/mini").registry_key(), "org/mini");
    assert_eq!(model("org/mini", Some("mini"), "/m/mini").registry_key(), "mini");
}

#[test]
fn unknown_name_is_model_not_found() {
    let mut registry = ModelRegistry::new();
    registry.add_model(model("org/mini", Some("mini"), "/m/mini"));
    match registry.get_model("nope") {
        Err(Error::ModelNotFound(name)) => assert_eq!(name, "nope"),
        other => panic!("unexpected: {:?}", other),
    }
    match ModelRegistry::new().get_model("") {
        Err(Error::ModelNotFound(name)) => assert_eq!(name, ""),
        other => panic!("unexpected: {:?}", other),
    }
}

#[test]
fn adding_under_a_taken_key_replaces_the_record() {
    let mut registry = ModelRegistry::new();
    registry.add_model(model("org/a", Some("x"), "/m/a"));
    registry.add_model(model("org/b", None, "/m/b"));
    registry.add_model(model("org/c", Some("x"), "/m/c"));
    assert_eq!(registry.len(), 2);
    assert_eq!(registry.get_model("x").unwrap().name, "org/c");
    assert_eq!(registry.get_model("org/b").unwrap().name, "org/b");
}

#[test]
fn listing_has_one_record_per_key_in_order_of_arrival() {
    let mut registry = ModelRegistry::new();
    registry.add_model(model("org/a", Some("a"), "/m/a"));
    registry.add_model(model("org/b", None, "/m/b"));
    registry.add_model(model("org/c", Some("a"), "/m/c"));
    let names: Vec<&str> = registry.list_models().iter().map(|m| m.name.as_str()).collect();
    assert_eq!(names, vec!["org/c", "org/b"]);
    let rows = registry.entries();
    assert_eq!(rows.len(), 2);
    assert_eq!(rows[0].0, "a");
    assert_eq!(rows[0].1.model_path, "/m/c");
    assert_eq!(rows[1].0, "org/b");
}

#[test]
fn insert_files_under_the_given_key() {
    let mut registry = ModelRegistry::new();
    registry.insert("other".to_string(), model("org/a", Some("a"), "/m/a"));
    assert!(registry.contains("other"));
    assert!(!registry.contains("a"));
    assert_eq!(registry.get_model("other").unwrap().alias.as_deref(), Some("a"));
}

#[test]
fn clone_keeps_every_field() {
    let mut first = model("org/a", Some("a"), "/m/a");
    first.embedding_dim = Some(384);
    let copy = first.clone();
    assert_eq!(copy.name, "org/a");
    assert_eq!(copy.hf_repo_id, "org/a");
    assert_eq!(copy.alias.as_deref(), Some("a"));
    assert_eq!(copy.model_path, "/m/a");
    assert_eq!(copy.embedding_dim, Some(384));
    assert_eq!(copy.downloaded_at, "2024-05-01T10:00:00+00:00");
}

#[test]
fn keys_differ_by_a_single_character() {
    let mut registry = ModelRegistry::new();
    registry.add_model(model("org/a", Some("mini"), "/m/1"));
    registry.add_model(model("org/b", Some("mini "), "/m/2"));
    registry.add_model(model("org/c", Some("Mini"), "/m/3"));
    assert_eq!(registry.len(), 3);
    assert_eq!(registry.get_model("mini").unwrap().model_path, "/m/1");
    assert_eq!(registry.get_model("mini ").unwrap().model_path, "/m/2");
    assert_eq!(registry.get_model("Mini").unwrap().model_path, "/m/3");
}
