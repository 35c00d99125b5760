//! Scenario descriptions and the fixed catalog. A scenario names which
//! engine variant to build, the model and policy files to build it from,
//! an optional bulk-load size, and the one literal query to time. The
//! catalog is the complete, ordered set of named scenarios.

use vstd::prelude::*;

verus! {

/// Which enforcement path a scenario exercises: the raw in-memory scan,
/// the plain engine, or its caching variant.
#[derive(Clone, Copy, Debug)]
pub enum EngineKind {
    Raw,
    Plain,
    Cached,
}

/// Bulk-load sizes: how many policy rules (roles) and grouping rules
/// (users) to generate and load before the query.
#[derive(Clone, Copy, Debug)]
pub struct BulkLoad {
    pub role_count: u64,
    pub user_count: u64,
}

/// One named benchmark scenario, immutable once built.
pub struct Scenario {
    pub name: String,
    pub kind: EngineKind,
    pub model_path: String,
    pub policy_path: Option<String>,
    pub bulk: Option<BulkLoad>,
    pub query: Vec<String>,
}

/// The mathematical image of a `Scenario`: every string as a `Seq<char>`.
#[verifier::ext_equal]
pub struct ScenarioView {
    pub name: Seq<char>,
    pub kind: EngineKind,
    pub model_path: Seq<char>,
    pub policy_path: Option<Seq<char>>,
    pub bulk: Option<BulkLoad>,
    pub query: Seq<Seq<char>>,
}

impl View for Scenario {
    type V = ScenarioView;

    open spec fn view(&self) -> ScenarioView {
        ScenarioView {
            name: self.name@,
            kind: self.kind,
            model_path: self.model_path@,
            policy_path: match self.policy_path {
                Some(p) => Some(p@),
                None => None,
            },
            bulk: self.bulk,
            query: self.query.deep_view(),
        }
    }
}

/// A scenario that the runner can interpret: the query has 3 or 4 fields,
/// the raw scan takes no engine input, and bulk scenarios start from an
/// empty policy set.
pub open spec fn wf_view(s: ScenarioView) -> bool {
    &&& (s.query.len() == 3 || s.query.len() == 4)
    &&& (s.kind is Raw ==> s.model_path.len() == 0 && s.policy_path is None && s.bulk is None
        && s.query.len() == 3)
    &&& (s.bulk is Some ==> s.policy_path is None)
}

pub open spec fn views_of(table: Seq<Scenario>) -> Seq<ScenarioView> {
    Seq::new(table.len(), |i: int| table[i]@)
}

/// The fixed, ordered catalog of scenarios.
pub open spec fn spec_catalog() -> Seq<ScenarioView> {
    seq![
        ScenarioView {
            name: "b_benchmark_raw"@,
            kind: EngineKind::Raw,
            model_path: ""@,
            policy_path: None,
            bulk: None,
            query: seq!["alice"@, "data1"@, "read"@],
        },
        ScenarioView {
            name: "b_benchmark_basic_model"@,
            kind: EngineKind::Plain,
            model_path: "examples/basic_model.conf"@,
            policy_path: Some("examples/basic_policy.csv"@),
            bulk: None,
            query: seq!["alice"@, "data1"@, "read"@],
        },
        ScenarioView {
            name: "b_benmark_cached_basic_model"@,
            kind: EngineKind::Cached,
            model_path: "examples/basic_model.conf"@,
            policy_path: Some("examples/basic_policy.csv"@),
            bulk: None,
            query: seq!["alice"@, "data1"@, "read"@],
        },
        ScenarioView {
            name: "b_benchmark_rbac_model"@,
            kind: EngineKind::Plain,
            model_path: "examples/rbac_model.conf"@,
            policy_path: Some("examples/rbac_policy.csv"@),
            bulk: None,
            query: seq!["alice"@, "data2"@, "read"@],
        },
        ScenarioView {
            name: "b_benchmark_cached_rbac_model"@,
            kind: EngineKind::Cached,
            model_path: "examples/rbac_model.conf"@,
            policy_path: Some("examples/rbac_policy.csv"@),
            bulk: None,
            query: seq!["alice"@, "data2"@, "read"@],
        },
        ScenarioView {
            name: "b_benchmark_rbac_model_small"@,
            kind: EngineKind::Plain,
            model_path: "examples/rbac_model.conf"@,
            policy_path: None,
            bulk: Some(BulkLoad { role_count: 100, user_count: 1000 }),
            query: seq!["user501"@, "data9"@, "read"@],
        },
        ScenarioView {
            name: "b_benchmark_cached_rbac_model_small"@,
            kind: EngineKind::Cached,
            model_path: "examples/rbac_model.conf"@,
            policy_path: None,
            bulk: Some(BulkLoad { role_count: 100, user_count: 1000 }),
            query: seq!["user501"@, "data9"@, "read"@],
        },
        ScenarioView {
            name: "b_benchmark_rbac_model_medium"@,
            kind: EngineKind::Plain,
            model_path: "examples/rbac_model.conf"@,
            policy_path: None,
            bulk: Some(BulkLoad { role_count: 1000, user_count: 10000 }),
            query: seq!["user5001"@, "data15"@, "read"@],
        },
        ScenarioView {
            name: "b_benchmark_cached_rbac_model_medium"@,
            kind: EngineKind::Cached,
            model_path: "examples/rbac_model.conf"@,
            policy_path: None,
            bulk: Some(BulkLoad { role_count: 1000, user_count: 10000 }),
            query: seq!["user5001"@, "data150"@, "read"@],
        },
        ScenarioView {
            name: "b_benchmark_rbac_model_large"@,
            kind: EngineKind::Plain,
            model_path: "examples/rbac_model.conf"@,
            policy_path: None,
            bulk: Some(BulkLoad { role_count: 10000, user_count: 100000 }),
            query: seq!["user50001"@, "data1500"@, "read"@],
        },
        ScenarioView {
            name: "b_benchmark_cached_rbac_model_large"@,
            kind: EngineKind::Cached,
            model_path: "examples/rbac_model.conf"@,
            policy_path: None,
            bulk: Some(BulkLoad { role_count: 10000, user_count: 100000 }),
            query: seq!["user50001"@, "data1500"@, "read"@],
        },
        ScenarioView {
            name: "b_benchmark_rbac_with_resource_roles"@,
            kind: EngineKind::Plain,
            model_path: "examples/rbac_with_resource_roles_model.conf"@,
            policy_path: Some("examples/rbac_with_resource_roles_policy.csv"@),
            bulk: None,
            query: seq!["alice"@, "data1"@, "read"@],
        },
        ScenarioView {
            name: "b_benchmark_cached_rbac_with_resource_roles"@,
            kind: EngineKind::Cached,
            model_path: "examples/rbac_with_resource_roles_model.conf"@,
            policy_path: Some("examples/rbac_with_resource_roles_policy.csv"@),
            bulk: None,
            query: seq!["alice"@, "data1"@, "read"@],
        },
        ScenarioView {
            name: "b_benchmark_rbac_model_with_domains"@,
            kind: EngineKind::Plain,
            model_path: "examples/rbac_with_domains_model.conf"@,
            policy_path: Some("examples/rbac_with_domains_policy.csv"@),
            bulk: None,
            query: seq!["alice"@, "domain1"@, "data1"@, "read"@],
        },
        ScenarioView {
            name: "b_benchmark_cached_rbac_model_with_domains"@,
            kind: EngineKind::Cached,
            model_path: "examples/rbac_with_domains_model.conf"@,
            policy_path: Some("examples/rbac_with_domains_policy.csv"@),
            bulk: None,
            query: seq!["alice"@, "domain1"@, "data1"@, "read"@],
        },
        ScenarioView {
            name: "b_benchmark_abac_model"@,
            kind: EngineKind::Plain,
            model_path: "examples/abac_model.conf"@,
            policy_path: None,
            bulk: None,
            query: seq!["alice"@, "{\"Owner\": \"alice\"}"@, "read"@],
        },
        ScenarioView {
            name: "b_benchmark_cached_abac_model"@,
            kind: EngineKind::Cached,
            model_path: "examples/abac_model.conf"@,
            policy_path: None,
            bulk: None,
            query: seq!["alice"@, "{\"Owner\": \"alice\"}"@, "read"@],
        },
        ScenarioView {
            name: "b_benchmark_key_match"@,
            kind: EngineKind::Plain,
            model_path: "examples/keymatch_model.conf"@,
            policy_path: Some("examples/keymatch_policy.csv"@),
            bulk: None,
            query: seq!["alice"@, "/alice_data/resource1"@, "GET"@],
        },
        ScenarioView {
            name: "b_benchmark_cached_key_match"@,
            kind: EngineKind::Cached,
            model_path: "examples/keymatch_model.conf"@,
            policy_path: Some("examples/keymatch_policy.csv"@),
            bulk: None,
            query: seq!["alice"@, "/alice_data/resource1"@, "GET"@],
        },
        ScenarioView {
            name: "b_benchmark_rbac_with_deny"@,
            kind: EngineKind::Plain,
            model_path: "examples/rbac_with_deny_model.conf"@,
            policy_path: Some("examples/rbac_with_deny_policy.csv"@),
            bulk: None,
            query: seq!["alice"@, "data1"@, "read"@],
        },
        ScenarioView {
            name: "b_benchmark_cached_rbac_with_deny"@,
            kind: EngineKind::Cached,
            model_path: "examples/rbac_with_deny_model.conf"@,
            policy_path: Some("examples/rbac_with_deny_policy.csv"@),
            bulk: None,
            query: seq!["alice"@, "data1"@, "read"@],
        },
        ScenarioView {
            name: "b_benchmark_priority_model"@,
            kind: EngineKind::Plain,
            model_path: "examples/priority_model.conf"@,
            policy_path: Some("examples/priority_policy.csv"@),
            bulk: None,
            query: seq!["alice"@, "data1"@, "read"@],
        },
        ScenarioView {
            name: "b_benchmark_cached_priority_model"@,
            kind: EngineKind::Cached,
            model_path: "examples/priority_model.conf"@,
            policy_path: Some("examples/priority_policy.csv"@),
            bulk: None,
            query: seq!["alice"@, "data1"@, "read"@],
        },
    ]
}

fn query3(a: &str, b: &str, c: &str) -> (v: Vec<String>)
    ensures
        v.deep_view() == seq![a@, b@, c@],
{
    let mut v: Vec<String> = Vec::new();
    v.push(a.to_owned());
    v.push(b.to_owned());
    v.push(c.to_owned());
    proof {
        assert(v.deep_view() =~= seq![a@, b@, c@]);
    }
    v
}

fn query4(a: &str, b: &str, c: &str, d: &str) -> (v: Vec<String>)
    ensures
        v.deep_view() == seq![a@, b@, c@, d@],
{
    let mut v: Vec<String> = Vec::new();
    v.push(a.to_owned());
    v.push(b.to_owned());
    v.push(c.to_owned());
    v.push(d.to_owned());
    proof {
        assert(v.deep_view() =~= seq![a@, b@, c@, d@]);
    }
    v
}

fn mk(
    name: &str,
    kind: EngineKind,
    model: &str,
    policy: Option<&str>,
    bulk: Option<BulkLoad>,
    query: Vec<String>,
) -> (s: Scenario)
    ensures
        s@ == (ScenarioView {
            name: name@,
            kind,
            model_path: model@,
            policy_path: match policy {
                Some(p) => Some(p@),
                None => None,
            },
            bulk,
            query: query.deep_view(),
        }),
{
    let policy_path: Option<String> = match policy {
        Some(p) => Some(p.to_owned()),
        None => None,
    };
    Scenario {
        name: name.to_owned(),
        kind,
        model_path: model.to_owned(),
        policy_path,
        bulk,
        query,
    }
}

/// Builds the catalog, in its fixed order, exactly as `spec_catalog`
/// describes it.
pub fn catalog() -> (table: Vec<Scenario>)
    ensures
        views_of(table@) == spec_catalog(),
{
    let mut t: Vec<Scenario> = Vec::new();
    t.push(mk("b_benchmark_raw", EngineKind::Raw, "", None, None,
        query3("alice", "data1", "read")));
    t.push(mk("b_benchmark_basic_model", EngineKind::Plain, "examples/basic_model.conf",
        Some("examples/basic_policy.csv"), None, query3("alice", "data1", "read")));
    t.push(mk("b_benmark_cached_basic_model", EngineKind::Cached, "examples/basic_model.conf",
        Some("examples/basic_policy.csv"), None, query3("alice", "data1", "read")));
    t.push(mk("b_benchmark_rbac_model", EngineKind::Plain, "examples/rbac_model.conf",
        Some("examples/rbac_policy.csv"), None, query3("alice", "data2", "read")));
    t.push(mk("b_benchmark_cached_rbac_model", EngineKind::Cached, "examples/rbac_model.conf",
        Some("examples/rbac_policy.csv"), None, query3("alice", "data2", "read")));
    t.push(mk("b_benchmark_rbac_model_small", EngineKind::Plain, "examples/rbac_model.conf",
        None, Some(BulkLoad { role_count: 100, user_count: 1000 }),
        query3("user501", "data9", "read")));
    t.push(mk("b_benchmark_cached_rbac_model_small", EngineKind::Cached,
        "examples/rbac_model.conf", None,
        Some(BulkLoad { role_count: 100, user_count: 1000 }),
        query3("user501", "data9", "read")));
    t.push(mk("b_benchmark_rbac_model_medium", EngineKind::Plain, "examples/rbac_model.conf",
        None, Some(BulkLoad { role_count: 1000, user_count: 10000 }),
        query3("user5001", "data15", "read")));
    t.push(mk("b_benchmark_cached_rbac_model_medium", EngineKind::Cached,
        "examples/rbac_model.conf", None,
        Some(BulkLoad { role_count: 1000, user_count: 10000 }),
        query3("user5001", "data150", "read")));
    t.push(mk("b_benchmark_rbac_model_large", EngineKind::Plain, "examples/rbac_model.conf",
        None, Some(BulkLoad { role_count: 10000, user_count: 100000 }),
        query3("user50001", "data1500", "read")));
    t.push(mk("b_benchmark_cached_rbac_model_large", EngineKind::Cached,
        "examples/rbac_model.conf", None,
        Some(BulkLoad { role_count: 10000, user_count: 100000 }),
        query3("user50001", "data1500", "read")));
    t.push(mk("b_benchmark_rbac_with_resource_roles", EngineKind::Plain,
        "examples/rbac_with_resource_roles_model.conf",
        Some("examples/rbac_with_resource_roles_policy.csv"), None,
        query3("alice", "data1", "read")));
    t.push(mk("b_benchmark_cached_rbac_with_resource_roles", EngineKind::Cached,
        "examples/rbac_with_resource_roles_model.conf",
        Some("examples/rbac_with_resource_roles_policy.csv"), None,
        query3("alice", "data1", "read")));
    t.push(mk("b_benchmark_rbac_model_with_domains", EngineKind::Plain,
        "examples/rbac_with_domains_model.conf",
        Some("examples/rbac_with_domains_policy.csv"), None,
        query4("alice", "domain1", "data1", "read")));
    t.push(mk("b_benchmark_cached_rbac_model_with_domains", EngineKind::Cached,
        "examples/rbac_with_domains_model.conf",
        Some("examples/rbac_with_domains_policy.csv"), None,
        query4("alice", "domain1", "data1", "read")));
    t.push(mk("b_benchmark_abac_model", EngineKind::Plain, "examples/abac_model.conf", None,
        None, query3("alice", "{\"Owner\": \"alice\"}", "read")));
    t.push(mk("b_benchmark_cached_abac_model", EngineKind::Cached, "examples/abac_model.conf",
        None, None, query3("alice", "{\"Owner\": \"alice\"}", "read")));
    t.push(mk("b_benchmark_key_match", EngineKind::Plain, "examples/keymatch_model.conf",
        Some("examples/keymatch_policy.csv"), None,
        query3("alice", "/alice_data/resource1", "GET")));
    t.push(mk("b_benchmark_cached_key_match", EngineKind::Cached,
        "examples/keymatch_model.conf", Some("examples/keymatch_policy.csv"), None,
        query3("alice", "/alice_data/resource1", "GET")));
    t.push(mk("b_benchmark_rbac_with_deny", EngineKind::Plain,
        "examples/rbac_with_deny_model.conf", Some("examples/rbac_with_deny_policy.csv"),
        None, query3("alice", "data1", "read")));
    t.push(mk("b_benchmark_cached_rbac_with_deny", EngineKind::Cached,
        "examples/rbac_with_deny_model.conf", Some("examples/rbac_with_deny_policy.csv"),
        None, query3("alice", "data1", "read")));
    t.push(mk("b_benchmark_priority_model", EngineKind::Plain,
        "examples/priority_model.conf", Some("examples/priority_policy.csv"), None,
        query3("alice", "data1", "read")));
    t.push(mk("b_benchmark_cached_priority_model", EngineKind::Cached,
        "examples/priority_model.conf", Some("examples/priority_policy.csv"), None,
        query3("alice", "data1", "read")));
    proof {
        assert(views_of(t@) =~~= spec_catalog());
    }
    t
}

/// Every catalog entry is well formed.
pub proof fn lemma_catalog_wf()
    ensures
        forall|i: int| 0 <= i < spec_catalog().len() ==> wf_view(#[trigger] spec_catalog()[i]),
{
    assert forall|i: int| 0 <= i < spec_catalog().len() implies wf_view(
        #[trigger] spec_catalog()[i],
    ) by {
        reveal_strlit("");
        assert(spec_catalog().len() == 23);
    }
}

} // verus!
