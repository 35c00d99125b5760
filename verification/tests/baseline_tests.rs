use casbin_flamgraph::baseline::raw_enforce;

#[test]
fn raw_allows_listed_entries() {
    assert!(raw_enforce("alice", "data1", "read"));
    assert!(raw_enforce("bob", "data2", "write"));
}

#[test]
fn raw_denies_everything_else() {
    assert!(!raw_enforce("alice", "data1", "write"));
    assert!(!raw_enforce("alice", "data2", "read"));
    assert!(!raw_enforce("bob", "data2", "read"));
    assert!(!raw_enforce("bob", "data1", "write"));
    assert!(!raw_enforce("carol", "data1", "read"));
    assert!(!raw_enforce("", "", ""));
    assert!(!raw_enforce("alice", "data1", ""));
}
