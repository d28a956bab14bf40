use wasmbus_rpc::{LinkDefinition, RpcError, WasmCloudEntity};

fn actor(k: &str) -> WasmCloudEntity {
    WasmCloudEntity::new_actor(k).expect("actor entity")
}

fn provider(c: &str, l: &str) -> WasmCloudEntity {
    WasmCloudEntity::new_provider(c, l).expect("provider entity")
}

#[test]
fn new_actor_classifies_as_actor() {
    let e = actor("Mabc123");
    assert!(e.is_actor());
    assert!(!e.is_provider());
    let e = actor("xyz");
    assert!(e.is_actor());
    assert!(!e.is_provider());
}

#[test]
fn new_provider_classifies_as_provider() {
    let e = provider("wasmcloud:httpserver", "default");
    assert!(e.is_provider());
    assert!(!e.is_actor());
}

#[test]
fn empty_arguments_are_invalid_parameters() {
    assert!(matches!(
        WasmCloudEntity::new_actor(""),
        Err(RpcError::InvalidParameter(_))
    ));
    assert!(matches!(
        WasmCloudEntity::new_provider("", "x"),
        Err(RpcError::InvalidParameter(_))
    ));
    assert!(matches!(
        WasmCloudEntity::new_provider("x", ""),
        Err(RpcError::InvalidParameter(_))
    ));
}

#[test]
fn url_is_deterministic() {
    let e = provider("wasmcloud:httpserver", "default");
    assert_eq!(e.url(), e.url());
    let a = actor("Mabc123");
    assert_eq!(a.url(), a.url());
}

#[test]
fn url_collapses_normalization_variants_only() {
    let e1 = provider("Foo:Bar", "default");
    let e2 = provider("foo/bar", "default");
    assert_eq!(e1.url(), e2.url());
    let e3 = provider("foo/baz", "default");
    assert_ne!(e1.url(), e3.url());
    let e4 = provider("foo/bar", "other");
    assert_ne!(e1.url(), e4.url());
}

#[test]
fn module_identity_url() {
    let e = actor("Mabc123");
    assert_eq!(e.url(), "wasmbus://Mabc123");
}

#[test]
fn contract_qualified_url() {
    let e = WasmCloudEntity {
        public_key: "xyz".to_string(),
        contract_id: "wasmcloud:httpserver".to_string(),
        link_name: "default".to_string(),
    };
    assert_eq!(e.url(), "wasmbus://wasmcloud/httpserver/default/xyz");
}

#[test]
fn url_normalizes_spaces_and_case() {
    let e = WasmCloudEntity {
        public_key: "k".to_string(),
        contract_id: "Acme:Cache Store".to_string(),
        link_name: "Hot Cache".to_string(),
    };
    assert_eq!(e.url(), "wasmbus://acme/cache_store/hot_cache/k");
}

#[test]
fn url_lowercases_beyond_ascii() {
    let e = WasmCloudEntity {
        public_key: "x".to_string(),
        contract_id: "\u{c9}".to_string(),
        link_name: "d".to_string(),
    };
    assert_eq!(e.url(), "wasmbus://\u{e9}/d/x");
    let e = WasmCloudEntity {
        public_key: "k".to_string(),
        contract_id: "Acme:\u{c9}cho Serveur".to_string(),
        link_name: "D\u{c9}FAUT".to_string(),
    };
    assert_eq!(e.url(), "wasmbus://acme/\u{e9}cho_serveur/d\u{e9}faut/k");
}

#[test]
fn provider_url_has_empty_identity_segment() {
    let e = provider("wasmcloud:keyvalue", "default");
    assert_eq!(e.url(), "wasmbus://wasmcloud/keyvalue/default/");
}

#[test]
fn link_definition_projections() {
    let ld = LinkDefinition {
        actor_id: "A".to_string(),
        provider_id: "P".to_string(),
        contract_id: "c".to_string(),
        link_name: "l".to_string(),
        values: vec![],
    };
    let a = ld.actor_entity();
    assert!(a.is_actor());
    assert_eq!(a.public_key(), "A");
    assert_eq!(a.contract_id, "");
    assert_eq!(a.link_name, "");
    let p = ld.provider_entity();
    assert_eq!(p.public_key(), "P");
    assert_eq!(p.contract_id, "c");
    assert_eq!(p.link_name, "l");
    assert!(p.is_provider());
}

#[test]
fn bare_string_parses_as_actor() {
    let e = WasmCloudEntity::from_target("xyz").expect("target entity");
    assert!(e.is_actor());
    assert_eq!(e.public_key(), "xyz");
    assert!(matches!(
        WasmCloudEntity::from_target(""),
        Err(RpcError::InvalidParameter(_))
    ));
}

#[test]
fn module_and_qualified_forms_differ() {
    let a = actor("Mabc");
    let p = provider("x:y", "z");
    assert_ne!(a.url(), p.url());
    assert!(a.url().starts_with("wasmbus://M"));
    assert!(p.url().starts_with("wasmbus://x/y/"));
}

#[test]
fn public_key_getter_returns_identity() {
    let e = actor("Mk1");
    assert_eq!(e.public_key(), "Mk1");
}
