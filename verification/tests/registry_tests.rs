use casbin_flamgraph::registry::{help_names, help_text, lookup_scenario, register, resolve};
use casbin_flamgraph::scenario::{catalog, EngineKind, Scenario};
use casbin_flamgraph::text::str_eq;

#[test]
fn string_comparison() {
    assert!(str_eq("", ""));
    assert!(str_eq("alice", "alice"));
    assert!(!str_eq("alice", "alicf"));
    assert!(!str_eq("alice", "alic"));
    assert!(!str_eq("", "a"));
    assert!(str_eq("héllo", "héllo"));
    assert!(!str_eq("héllo", "hello"));
}

#[test]
fn catalog_size_and_order() {
    let table = catalog();
    assert_eq!(table.len(), 23);
    assert_eq!(table[0].name, "b_benchmark_raw");
    assert_eq!(table[1].name, "b_benchmark_basic_model");
    assert_eq!(table[2].name, "b_benmark_cached_basic_model");
    assert_eq!(table[10].name, "b_benchmark_cached_rbac_model_large");
    assert_eq!(table[22].name, "b_benchmark_cached_priority_model");
}

#[test]
fn catalog_bulk_parameters() {
    let table = catalog();
    let small = resolve(&table, "b_benchmark_rbac_model_small").unwrap();
    let bulk = small.bulk.unwrap();
    assert_eq!(bulk.role_count, 100);
    assert_eq!(bulk.user_count, 1000);
    assert!(small.policy_path.is_none());
    assert_eq!(small.model_path, "examples/rbac_model.conf");
    assert_eq!(small.query, vec!["user501", "data9", "read"]);
    let large = resolve(&table, "b_benchmark_cached_rbac_model_large").unwrap();
    let bulk = large.bulk.unwrap();
    assert_eq!(bulk.role_count, 10000);
    assert_eq!(bulk.user_count, 100000);
    assert_eq!(large.query, vec!["user50001", "data1500", "read"]);
}

#[test]
fn catalog_query_shapes() {
    let table = catalog();
    let domains = resolve(&table, "b_benchmark_rbac_model_with_domains").unwrap();
    assert_eq!(domains.query, vec!["alice", "domain1", "data1", "read"]);
    let abac = resolve(&table, "b_benchmark_abac_model").unwrap();
    assert_eq!(abac.query, vec!["alice", "{\"Owner\": \"alice\"}", "read"]);
    assert!(abac.policy_path.is_none());
    let keymatch = resolve(&table, "b_benchmark_key_match").unwrap();
    assert_eq!(keymatch.query, vec!["alice", "/alice_data/resource1", "GET"]);
}

#[test]
fn every_help_name_resolves() {
    let table = catalog();
    let names = help_names();
    assert_eq!(names.len(), 23);
    for name in &names {
        let s = resolve(&table, name).unwrap_or_else(|| panic!("unresolved: {}", name));
        assert_eq!(&s.name, name);
    }
}

#[test]
fn listing_covers_full_catalog() {
    // The fallback listing is the full registry: name for name, in order.
    let names = help_names();
    let table = catalog();
    assert_eq!(names.len(), table.len());
    for (name, scenario) in names.iter().zip(table.iter()) {
        assert_eq!(name, &scenario.name);
    }
    assert!(names.iter().any(|n| n == "b_benchmark_cached_rbac_model_large"));
}

#[test]
fn resolve_unknown_is_none() {
    let table = catalog();
    assert!(resolve(&table, "").is_none());
    assert!(resolve(&table, "nope").is_none());
    assert!(resolve(&table, "b_benchmark_basic_model ").is_none());
    assert!(resolve(&table, "B_BENCHMARK_RAW").is_none());
}

#[test]
fn resolve_twice_is_equivalent() {
    let table = catalog();
    let a = resolve(&table, "b_benchmark_rbac_model").unwrap();
    let b = resolve(&table, "b_benchmark_rbac_model").unwrap();
    assert_eq!(a.name, b.name);
    assert_eq!(a.model_path, b.model_path);
    assert_eq!(a.policy_path, b.policy_path);
    assert_eq!(a.query, b.query);
    assert!(matches!(a.kind, EngineKind::Plain) && matches!(b.kind, EngineKind::Plain));
}

#[test]
fn lookup_builds_and_resolves() {
    let found = lookup_scenario("b_benchmark_priority_model").unwrap();
    assert_eq!(found.model_path, "examples/priority_model.conf");
    assert_eq!(
        found.policy_path.as_deref(),
        Some("examples/priority_policy.csv")
    );
    assert!(lookup_scenario("unknown_scenario").is_none());
}

#[test]
fn register_rejects_duplicates() {
    let mut table = catalog();
    let duplicate = Scenario {
        name: "b_benchmark_raw".to_string(),
        kind: EngineKind::Plain,
        model_path: "examples/basic_model.conf".to_string(),
        policy_path: None,
        bulk: None,
        query: vec!["a".to_string(), "b".to_string(), "c".to_string()],
    };
    assert!(!register(&mut table, duplicate));
    assert_eq!(table.len(), 23);
    let fresh = Scenario {
        name: "b_benchmark_custom".to_string(),
        kind: EngineKind::Plain,
        model_path: "examples/basic_model.conf".to_string(),
        policy_path: None,
        bulk: None,
        query: vec!["a".to_string(), "b".to_string(), "c".to_string()],
    };
    assert!(register(&mut table, fresh));
    assert_eq!(table.len(), 24);
    assert_eq!(resolve(&table, "b_benchmark_custom").unwrap().name, "b_benchmark_custom");
    let again = Scenario {
        name: "b_benchmark_custom".to_string(),
        kind: EngineKind::Cached,
        model_path: String::new(),
        policy_path: None,
        bulk: None,
        query: vec!["x".to_string(), "y".to_string(), "z".to_string()],
    };
    assert!(!register(&mut table, again));
    assert_eq!(table.len(), 24);
}

#[test]
fn fallback_text_is_exact() {
    let expected = "./casbin-flamgraph \
\n        b_benchmark_raw\
\n        b_benchmark_basic_model\
\n        b_benmark_cached_basic_model\
\n        b_benchmark_rbac_model\
\n        b_benchmark_cached_rbac_model\
\n        b_benchmark_rbac_model_small\
\n        b_benchmark_cached_rbac_model_small\
\n        b_benchmark_rbac_model_medium\
\n        b_benchmark_cached_rbac_model_medium\
\n        b_benchmark_rbac_model_large\
\n        b_benchmark_cached_rbac_model_large\
\n        b_benchmark_rbac_with_resource_roles\
\n        b_benchmark_cached_rbac_with_resource_roles\
\n        b_benchmark_rbac_model_with_domains\
\n        b_benchmark_cached_rbac_model_with_domains\
\n        b_benchmark_abac_model\
\n        b_benchmark_cached_abac_model\
\n        b_benchmark_key_match\
\n        b_benchmark_cached_key_match\
\n        b_benchmark_rbac_with_deny\
\n        b_benchmark_cached_rbac_with_deny\
\n        b_benchmark_priority_model\
\n        b_benchmark_cached_priority_model";
    assert_eq!(help_text(), expected);
}
