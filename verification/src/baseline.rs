//! The raw baseline: an in-memory scan over a two-entry literal policy
//! list, answering a single authorization triple without any engine.

use vstd::prelude::*;
use crate::generator::{policy_contains, PolicyRule};

verus! {

/// What the literal two-entry policy list allows: exactly
/// `(alice, data1, read)` and `(bob, data2, write)`.
pub open spec fn spec_raw_allows(subject: Seq<char>, object: Seq<char>, action: Seq<char>) -> bool {
    ||| (subject == "alice"@ && object == "data1"@ && action == "read"@)
    ||| (subject == "bob"@ && object == "data2"@ && action == "write"@)
}

/// Scans the literal policy list for the request triple; true exactly
/// when the triple is one of the two listed entries.
pub fn raw_enforce(subject: &str, object: &str, action: &str) -> (r: bool)
    ensures
        r == spec_raw_allows(subject@, object@, action@),
{
    let mut policies: Vec<PolicyRule> = Vec::new();
    policies.push(
        PolicyRule {
            role: "alice".to_owned(),
            object: "data1".to_owned(),
            action: "read".to_owned(),
        },
    );
    policies.push(
        PolicyRule {
            role: "bob".to_owned(),
            object: "data2".to_owned(),
            action: "write".to_owned(),
        },
    );
    let r = policy_contains(&policies, subject, object, action);
    proof {
        assert(policies@[0].role@ == "alice"@);
        assert(policies@[1].role@ == "bob"@);
        if spec_raw_allows(subject@, object@, action@) {
            if subject@ == "alice"@ && object@ == "data1"@ && action@ == "read"@ {
                assert(policies@[0].object@ == object@);
            } else {
                assert(policies@[1].object@ == object@);
            }
        }
    }
    r
}

} // verus!
