//! The scaling policy generator: deterministic synthesis of policy and
//! grouping rules at a chosen cardinality. Rule `i` of the policy output
//! grants role `group{i}` the `read` action on resource `data{i/10}`;
//! grouping rule `i` places `user{i}` in role `group{i/10}`. Both are
//! pure functions of their integer bound.

use vstd::prelude::*;
use crate::text::{
    lemma_decimal_name_injective, spec_decimal, str_eq, u64_to_decimal,
};

verus! {

/// The name of role number `i`.
pub open spec fn spec_group_name(i: nat) -> Seq<char> {
    "group"@ + spec_decimal(i)
}

/// The name of resource number `i`.
pub open spec fn spec_data_name(i: nat) -> Seq<char> {
    "data"@ + spec_decimal(i)
}

/// The name of user number `i`.
pub open spec fn spec_user_name(i: nat) -> Seq<char> {
    "user"@ + spec_decimal(i)
}

pub fn group_name(i: u64) -> (s: String)
    ensures
        s@ == spec_group_name(i as nat),
{
    let mut s = "group".to_owned();
    let digits = u64_to_decimal(i);
    s.append(digits.as_str());
    s
}

pub fn data_name(i: u64) -> (s: String)
    ensures
        s@ == spec_data_name(i as nat),
{
    let mut s = "data".to_owned();
    let digits = u64_to_decimal(i);
    s.append(digits.as_str());
    s
}

pub fn user_name(i: u64) -> (s: String)
    ensures
        s@ == spec_user_name(i as nat),
{
    let mut s = "user".to_owned();
    let digits = u64_to_decimal(i);
    s.append(digits.as_str());
    s
}

/// One synthetic policy rule: `role` may perform `action` on `object`.
pub struct PolicyRule {
    pub role: String,
    pub object: String,
    pub action: String,
}

/// One synthetic grouping rule: `user` belongs to `role`.
pub struct GroupingRule {
    pub user: String,
    pub role: String,
}

/// What the policy generator owes for bound `role_count`.
pub open spec fn is_policy_output(rules: Seq<PolicyRule>, role_count: nat) -> bool {
    &&& rules.len() == role_count
    &&& forall|i: int|
        0 <= i < rules.len() ==> {
            &&& (#[trigger] rules[i]).role@ == spec_group_name(i as nat)
            &&& rules[i].object@ == spec_data_name((i / 10) as nat)
            &&& rules[i].action@ == "read"@
        }
}

/// What the grouping generator owes for bound `user_count`.
pub open spec fn is_grouping_output(rules: Seq<GroupingRule>, user_count: nat) -> bool {
    &&& rules.len() == user_count
    &&& forall|i: int|
        0 <= i < rules.len() ==> {
            &&& (#[trigger] rules[i]).user@ == spec_user_name(i as nat)
            &&& rules[i].role@ == spec_group_name((i / 10) as nat)
        }
}

/// Produces exactly `role_count` policy rules; rule `i` reads
/// `(group{i}, data{i/10}, read)`.
pub fn generate_policy_rules(role_count: u64) -> (rules: Vec<PolicyRule>)
    ensures
        is_policy_output(rules@, role_count as nat),
{
    let mut rules: Vec<PolicyRule> = Vec::new();
    let mut i: u64 = 0;
    while i < role_count
        invariant
            i <= role_count,
            rules@.len() == i,
            forall|k: int|
                0 <= k < i ==> {
                    &&& (#[trigger] rules@[k]).role@ == spec_group_name(k as nat)
                    &&& rules@[k].object@ == spec_data_name((k / 10) as nat)
                    &&& rules@[k].action@ == "read"@
                },
        decreases role_count - i,
    {
        let rule = PolicyRule {
            role: group_name(i),
            object: data_name(i / 10),
            action: "read".to_owned(),
        };
        rules.push(rule);
        i = i + 1;
    }
    rules
}

/// Produces exactly `user_count` grouping rules; rule `i` reads
/// `(user{i}, group{i/10})`.
pub fn generate_grouping_rules(user_count: u64) -> (rules: Vec<GroupingRule>)
    ensures
        is_grouping_output(rules@, user_count as nat),
{
    let mut rules: Vec<GroupingRule> = Vec::new();
    let mut i: u64 = 0;
    while i < user_count
        invariant
            i <= user_count,
            rules@.len() == i,
            forall|k: int|
                0 <= k < i ==> {
                    &&& (#[trigger] rules@[k]).user@ == spec_user_name(k as nat)
                    &&& rules@[k].role@ == spec_group_name((k / 10) as nat)
                },
        decreases user_count - i,
    {
        let rule = GroupingRule { user: user_name(i), role: group_name(i / 10) };
        rules.push(rule);
        i = i + 1;
    }
    rules
}

/// The generators are deterministic: any two policy outputs for one bound
/// agree rule by rule, field by field.
pub proof fn lemma_policy_generator_deterministic(
    a: Seq<PolicyRule>,
    b: Seq<PolicyRule>,
    role_count: nat,
)
    requires
        is_policy_output(a, role_count),
        is_policy_output(b, role_count),
    ensures
        a.len() == b.len(),
        forall|i: int|
            0 <= i < a.len() ==> {
                &&& (#[trigger] a[i]).role@ == b[i].role@
                &&& a[i].object@ == b[i].object@
                &&& a[i].action@ == b[i].action@
            },
{
    assert forall|i: int| 0 <= i < a.len() implies {
        &&& (#[trigger] a[i]).role@ == b[i].role@
        &&& a[i].object@ == b[i].object@
        &&& a[i].action@ == b[i].action@
    } by {
        assert(b[i].role@ == spec_group_name(i as nat));
    }
}

/// The grouping generator is deterministic in the same sense.
pub proof fn lemma_grouping_generator_deterministic(
    a: Seq<GroupingRule>,
    b: Seq<GroupingRule>,
    user_count: nat,
)
    requires
        is_grouping_output(a, user_count),
        is_grouping_output(b, user_count),
    ensures
        a.len() == b.len(),
        forall|i: int|
            0 <= i < a.len() ==> {
                &&& (#[trigger] a[i]).user@ == b[i].user@
                &&& a[i].role@ == b[i].role@
            },
{
    assert forall|i: int| 0 <= i < a.len() implies {
        &&& (#[trigger] a[i]).user@ == b[i].user@
        &&& a[i].role@ == b[i].role@
    } by {
        assert(b[i].user@ == spec_user_name(i as nat));
    }
}

/// A subject reaches an object through the synthetic rules when some
/// grouping rule names the subject and some policy rule grants the
/// grouping rule's role the action on the object.
pub open spec fn spec_chain_grants(
    policy: Seq<PolicyRule>,
    grouping: Seq<GroupingRule>,
    subject: Seq<char>,
    object: Seq<char>,
    action: Seq<char>,
) -> bool {
    exists|j: int, k: int|
        {
            &&& 0 <= j < grouping.len()
            &&& 0 <= k < policy.len()
            &&& (#[trigger] grouping[j]).user@ == subject
            &&& (#[trigger] policy[k]).role@ == grouping[j].role@
            &&& policy[k].object@ == object
            &&& policy[k].action@ == action
        }
}

/// Closed form of `spec_chain_grants` on generated rules: user `u` may
/// read `data{d}` exactly when the user exists, its role exists, and the
/// role's resource index `u / 100` equals `d`.
pub open spec fn spec_synthetic_allows(
    role_count: nat,
    user_count: nat,
    user_index: nat,
    object_index: nat,
) -> bool {
    &&& user_index < user_count
    &&& user_index / 10 < role_count
    &&& user_index / 10 / 10 == object_index
}

/// Decides whether the generated rule sets of the given bounds grant
/// `(user{user_index}, data{object_index}, read)`.
pub fn synthetic_request_allowed(
    role_count: u64,
    user_count: u64,
    user_index: u64,
    object_index: u64,
) -> (r: bool)
    ensures
        r == spec_synthetic_allows(
            role_count as nat,
            user_count as nat,
            user_index as nat,
            object_index as nat,
        ),
{
    user_index < user_count && user_index / 10 < role_count && user_index / 10 / 10
        == object_index
}

/// Tracing the generated mapping is sound: on generator output, the
/// two-step role chain grants `(user{u}, data{d}, read)` exactly when
/// `spec_synthetic_allows` says so.
pub proof fn lemma_chain_characterization(
    policy: Seq<PolicyRule>,
    grouping: Seq<GroupingRule>,
    role_count: nat,
    user_count: nat,
    u: nat,
    d: nat,
)
    requires
        is_policy_output(policy, role_count),
        is_grouping_output(grouping, user_count),
    ensures
        spec_chain_grants(policy, grouping, spec_user_name(u), spec_data_name(d), "read"@)
            <==> spec_synthetic_allows(role_count, user_count, u, d),
{
    if spec_chain_grants(policy, grouping, spec_user_name(u), spec_data_name(d), "read"@) {
        let (j, k) = choose|j: int, k: int|
            {
                &&& 0 <= j < grouping.len()
                &&& 0 <= k < policy.len()
                &&& (#[trigger] grouping[j]).user@ == spec_user_name(u)
                &&& (#[trigger] policy[k]).role@ == grouping[j].role@
                &&& policy[k].object@ == spec_data_name(d)
                &&& policy[k].action@ == "read"@
            };
        lemma_decimal_name_injective("user"@, j as nat, u);
        assert(j == u);
        lemma_decimal_name_injective("group"@, k as nat, (j / 10) as nat);
        assert(k == u / 10);
        lemma_decimal_name_injective("data"@, (k / 10) as nat, d);
        assert(u / 10 / 10 == d);
    }
    if spec_synthetic_allows(role_count, user_count, u, d) {
        let j = u as int;
        let k = (u / 10) as int;
        assert(grouping[j].user@ == spec_user_name(u));
        assert(grouping[j].role@ == spec_group_name((j / 10) as nat));
        assert(policy[k].role@ == spec_group_name(k as nat));
        assert(policy[k].object@ == spec_data_name((k / 10) as nat));
        assert((k / 10) as nat == d);
        assert(policy[k].action@ == "read"@);
        assert(spec_chain_grants(policy, grouping, spec_user_name(u), spec_data_name(d), "read"@));
    }
}

/// Looks up a subject/object/action triple in a policy rule list by
/// exact field match, the way the raw baseline scan does.
pub fn policy_contains(rules: &Vec<PolicyRule>, subject: &str, object: &str, action: &str) -> (r:
    bool)
    ensures
        r == exists|i: int|
            {
                &&& 0 <= i < rules@.len()
                &&& (#[trigger] rules@[i]).role@ == subject@
                &&& rules@[i].object@ == object@
                &&& rules@[i].action@ == action@
            },
{
    let mut i: usize = 0;
    while i < rules.len()
        invariant
            i <= rules@.len(),
            forall|k: int|
                0 <= k < i ==> !{
                    &&& (#[trigger] rules@[k]).role@ == subject@
                    &&& rules@[k].object@ == object@
                    &&& rules@[k].action@ == action@
                },
        decreases rules@.len() - i,
    {
        let rule = &rules[i];
        if str_eq(rule.role.as_str(), subject) && str_eq(rule.object.as_str(), object)
            && str_eq(rule.action.as_str(), action) {
            return true;
        }
        i = i + 1;
    }
    false
}

} // verus!
