use casbin_flamgraph::generator::{
    data_name, generate_grouping_rules, generate_policy_rules, group_name, policy_contains,
    synthetic_request_allowed, user_name, PolicyRule,
};
use casbin_flamgraph::text::u64_to_decimal;

#[test]
fn decimal_rendering() {
    assert_eq!(u64_to_decimal(0), "0");
    assert_eq!(u64_to_decimal(7), "7");
    assert_eq!(u64_to_decimal(10), "10");
    assert_eq!(u64_to_decimal(501), "501");
    assert_eq!(u64_to_decimal(100000), "100000");
    assert_eq!(u64_to_decimal(u64::MAX), "18446744073709551615");
}

#[test]
fn name_builders() {
    assert_eq!(group_name(0), "group0");
    assert_eq!(group_name(12), "group12");
    assert_eq!(data_name(0), "data0");
    assert_eq!(data_name(1500), "data1500");
    assert_eq!(user_name(50001), "user50001");
}

#[test]
fn policy_generator_counts_and_fields() {
    let rules = generate_policy_rules(100);
    assert_eq!(rules.len(), 100);
    assert_eq!(rules[0].role, "group0");
    assert_eq!(rules[0].object, "data0");
    assert_eq!(rules[0].action, "read");
    assert_eq!(rules[7].role, "group7");
    assert_eq!(rules[7].object, "data0");
    assert_eq!(rules[50].role, "group50");
    assert_eq!(rules[50].object, "data5");
    assert_eq!(rules[99].role, "group99");
    assert_eq!(rules[99].object, "data9");
}

#[test]
fn policy_generator_smallest_bound() {
    let rules = generate_policy_rules(1);
    assert_eq!(rules.len(), 1);
    assert_eq!(rules[0].role, "group0");
    assert_eq!(rules[0].object, "data0");
    assert_eq!(rules[0].action, "read");
}

#[test]
fn grouping_generator_counts_and_fields() {
    let rules = generate_grouping_rules(1000);
    assert_eq!(rules.len(), 1000);
    assert_eq!(rules[0].user, "user0");
    assert_eq!(rules[0].role, "group0");
    assert_eq!(rules[501].user, "user501");
    assert_eq!(rules[501].role, "group50");
    assert_eq!(rules[999].user, "user999");
    assert_eq!(rules[999].role, "group99");
}

#[test]
fn generators_are_deterministic() {
    let a = generate_policy_rules(64);
    let b = generate_policy_rules(64);
    assert_eq!(a.len(), b.len());
    for i in 0..a.len() {
        assert_eq!(a[i].role, b[i].role);
        assert_eq!(a[i].object, b[i].object);
        assert_eq!(a[i].action, b[i].action);
    }
    let c = generate_grouping_rules(64);
    let d = generate_grouping_rules(64);
    assert_eq!(c.len(), d.len());
    for i in 0..c.len() {
        assert_eq!(c[i].user, d[i].user);
        assert_eq!(c[i].role, d[i].role);
    }
}

#[test]
fn small_scale_chain_traced() {
    // user501 belongs to group50, and group50 may read data5 only, so the
    // small scenario's literal query for data9 is a miss.
    let policy = generate_policy_rules(100);
    let grouping = generate_grouping_rules(1000);
    let of_user501: Vec<&_> = grouping.iter().filter(|g| g.user == "user501").collect();
    assert_eq!(of_user501.len(), 1);
    assert_eq!(of_user501[0].role, "group50");
    let of_group50: Vec<&_> = policy.iter().filter(|p| p.role == "group50").collect();
    assert_eq!(of_group50.len(), 1);
    assert_eq!(of_group50[0].object, "data5");
    assert_eq!(of_group50[0].action, "read");
    assert!(!policy
        .iter()
        .any(|p| p.role == "group50" && p.object == "data9"));
}

#[test]
fn synthetic_decision_small() {
    assert!(!synthetic_request_allowed(100, 1000, 501, 9));
    assert!(synthetic_request_allowed(100, 1000, 501, 5));
    assert!(!synthetic_request_allowed(100, 1000, 1000, 5));
}

#[test]
fn synthetic_decision_medium_and_large() {
    assert!(!synthetic_request_allowed(1000, 10000, 5001, 15));
    assert!(!synthetic_request_allowed(1000, 10000, 5001, 150));
    assert!(synthetic_request_allowed(1000, 10000, 5001, 50));
    assert!(!synthetic_request_allowed(10000, 100000, 50001, 1500));
    assert!(synthetic_request_allowed(10000, 100000, 50001, 500));
}

#[test]
fn policy_lookup_by_fields() {
    let rules = generate_policy_rules(20);
    assert!(policy_contains(&rules, "group5", "data0", "read"));
    assert!(policy_contains(&rules, "group19", "data1", "read"));
    assert!(!policy_contains(&rules, "group5", "data1", "read"));
    assert!(!policy_contains(&rules, "group20", "data2", "read"));
    assert!(!policy_contains(&rules, "group5", "data0", "write"));
    let empty: Vec<PolicyRule> = Vec::new();
    assert!(!policy_contains(&empty, "group0", "data0", "read"));
}
