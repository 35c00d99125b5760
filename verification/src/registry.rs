//! Name-to-scenario lookup over the catalog, registration with
//! reject-on-duplicate semantics, and the fixed fallback listing that an
//! invocation without a recognized name receives.

use vstd::prelude::*;
use crate::scenario::{catalog, spec_catalog, views_of, Scenario, ScenarioView};
use crate::text::str_eq;

verus! {

/// The first entry whose name matches, if any.
pub open spec fn spec_find(entries: Seq<ScenarioView>, name: Seq<char>) -> Option<ScenarioView>
    decreases entries.len(),
{
    if entries.len() == 0 {
        None
    } else if entries[0].name == name {
        Some(entries[0])
    } else {
        spec_find(entries.subrange(1, entries.len() as int), name)
    }
}

/// Whether some entry carries the name.
pub open spec fn spec_contains_name(entries: Seq<ScenarioView>, name: Seq<char>) -> bool {
    exists|i: int| 0 <= i < entries.len() && (#[trigger] entries[i]).name == name
}

/// `spec_find` succeeds exactly on contained names.
pub proof fn lemma_find_characterizes(entries: Seq<ScenarioView>, name: Seq<char>)
    ensures
        spec_find(entries, name) is Some <==> spec_contains_name(entries, name),
        spec_find(entries, name) is Some ==> spec_find(entries, name)->Some_0.name == name,
    decreases entries.len(),
{
    if entries.len() > 0 {
        let rest = entries.subrange(1, entries.len() as int);
        lemma_find_characterizes(rest, name);
        if entries[0].name == name {
            assert(spec_contains_name(entries, name));
        } else {
            if spec_contains_name(rest, name) {
                let j = choose|j: int| 0 <= j < rest.len() && (#[trigger] rest[j]).name == name;
                assert(entries[j + 1] == rest[j]);
                assert(spec_contains_name(entries, name));
            }
            if spec_contains_name(entries, name) {
                let i = choose|i: int|
                    0 <= i < entries.len() && (#[trigger] entries[i]).name == name;
                assert(i != 0);
                assert(rest[i - 1] == entries[i]);
                assert(spec_contains_name(rest, name));
            }
        }
    }
}

/// Finds the first scenario of the table with the given name; `None`
/// exactly when no entry carries it.
pub fn resolve<'a>(table: &'a Vec<Scenario>, name: &str) -> (r: Option<&'a Scenario>)
    ensures
        match r {
            Some(s) => spec_find(views_of(table@), name@) == Some(s@),
            None => spec_find(views_of(table@), name@) is None,
        },
{
    let ghost entries = views_of(table@);
    proof {
        assert(entries.subrange(0, entries.len() as int) =~= entries);
    }
    let mut i: usize = 0;
    while i < table.len()
        invariant
            entries == views_of(table@),
            i <= table@.len(),
            entries.len() == table@.len(),
            spec_find(entries, name@) == spec_find(
                entries.subrange(i as int, entries.len() as int),
                name@,
            ),
        decreases table@.len() - i,
    {
        let ghost tail = entries.subrange(i as int, entries.len() as int);
        proof {
            assert(tail[0] == entries[i as int]);
            assert(tail.subrange(1, tail.len() as int) =~= entries.subrange(
                i + 1,
                entries.len() as int,
            ));
        }
        if str_eq(table[i].name.as_str(), name) {
            return Some(&table[i]);
        }
        i = i + 1;
    }
    None
}

/// Appends the scenario unless its name is already registered; returns
/// whether it was added, and leaves the table unchanged when not.
pub fn register(table: &mut Vec<Scenario>, s: Scenario) -> (added: bool)
    ensures
        added == !spec_contains_name(views_of(old(table)@), s@.name),
        added ==> views_of(final(table)@) == views_of(old(table)@).push(s@),
        !added ==> final(table)@ == old(table)@,
{
    let mut i: usize = 0;
    while i < table.len()
        invariant
            i <= table@.len(),
            forall|k: int| 0 <= k < i ==> (#[trigger] views_of(table@)[k]).name != s@.name,
        decreases table@.len() - i,
    {
        if str_eq(table[i].name.as_str(), s.name.as_str()) {
            proof {
                assert((#[trigger] views_of(table@)[i as int]).name == s@.name);
            }
            return false;
        }
        i = i + 1;
    }
    let ghost before = table@;
    table.push(s);
    proof {
        assert(views_of(table@) =~= views_of(before).push(s@));
    }
    true
}

/// The names the fallback listing shows, in its fixed order.
pub open spec fn spec_help_names() -> Seq<Seq<char>> {
    seq![
        "b_benchmark_raw"@,
        "b_benchmark_basic_model"@,
        "b_benmark_cached_basic_model"@,
        "b_benchmark_rbac_model"@,
        "b_benchmark_cached_rbac_model"@,
        "b_benchmark_rbac_model_small"@,
        "b_benchmark_cached_rbac_model_small"@,
        "b_benchmark_rbac_model_medium"@,
        "b_benchmark_cached_rbac_model_medium"@,
        "b_benchmark_rbac_model_large"@,
        "b_benchmark_cached_rbac_model_large"@,
        "b_benchmark_rbac_with_resource_roles"@,
        "b_benchmark_cached_rbac_with_resource_roles"@,
        "b_benchmark_rbac_model_with_domains"@,
        "b_benchmark_cached_rbac_model_with_domains"@,
        "b_benchmark_abac_model"@,
        "b_benchmark_cached_abac_model"@,
        "b_benchmark_key_match"@,
        "b_benchmark_cached_key_match"@,
        "b_benchmark_rbac_with_deny"@,
        "b_benchmark_cached_rbac_with_deny"@,
        "b_benchmark_priority_model"@,
        "b_benchmark_cached_priority_model"@,
    ]
}

/// The names of the fallback listing, in order.
pub fn help_names() -> (v: Vec<String>)
    ensures
        v.deep_view() == spec_help_names(),
{
    let mut v: Vec<String> = Vec::new();
    v.push("b_benchmark_raw".to_owned());
    v.push("b_benchmark_basic_model".to_owned());
    v.push("b_benmark_cached_basic_model".to_owned());
    v.push("b_benchmark_rbac_model".to_owned());
    v.push("b_benchmark_cached_rbac_model".to_owned());
    v.push("b_benchmark_rbac_model_small".to_owned());
    v.push("b_benchmark_cached_rbac_model_small".to_owned());
    v.push("b_benchmark_rbac_model_medium".to_owned());
    v.push("b_benchmark_cached_rbac_model_medium".to_owned());
    v.push("b_benchmark_rbac_model_large".to_owned());
    v.push("b_benchmark_cached_rbac_model_large".to_owned());
    v.push("b_benchmark_rbac_with_resource_roles".to_owned());
    v.push("b_benchmark_cached_rbac_with_resource_roles".to_owned());
    v.push("b_benchmark_rbac_model_with_domains".to_owned());
    v.push("b_benchmark_cached_rbac_model_with_domains".to_owned());
    v.push("b_benchmark_abac_model".to_owned());
    v.push("b_benchmark_cached_abac_model".to_owned());
    v.push("b_benchmark_key_match".to_owned());
    v.push("b_benchmark_cached_key_match".to_owned());
    v.push("b_benchmark_rbac_with_deny".to_owned());
    v.push("b_benchmark_cached_rbac_with_deny".to_owned());
    v.push("b_benchmark_priority_model".to_owned());
    v.push("b_benchmark_cached_priority_model".to_owned());
    proof {
        assert(v.deep_view() =~= spec_help_names());
    }
    v
}

/// Every name the fallback listing shows resolves in the catalog.
pub proof fn lemma_help_listing_resolves()
    ensures
        forall|i: int|
            0 <= i < spec_help_names().len() ==> spec_find(
                spec_catalog(),
                #[trigger] spec_help_names()[i],
            ) is Some,
{
    assert forall|i: int| 0 <= i < spec_help_names().len() implies spec_find(
        spec_catalog(),
        #[trigger] spec_help_names()[i],
    ) is Some by {
        let name = spec_help_names()[i];
        assert(spec_catalog()[i].name == name);
        lemma_find_characterizes(spec_catalog(), name);
        assert(spec_contains_name(spec_catalog(), name));
    }
}

/// The fallback listing is the full catalog: name for name, in order.
pub proof fn lemma_help_listing_complete()
    ensures
        spec_help_names().len() == spec_catalog().len(),
        forall|i: int|
            0 <= i < spec_catalog().len() ==> spec_help_names()[i] == (
            #[trigger] spec_catalog()[i]).name,
{
}

/// Lookup is idempotent: two resolutions of one name in one table give
/// the same scenario.
pub proof fn lemma_resolve_idempotent(
    entries: Seq<ScenarioView>,
    name: Seq<char>,
    r1: Option<ScenarioView>,
    r2: Option<ScenarioView>,
)
    requires
        r1 == spec_find(entries, name),
        r2 == spec_find(entries, name),
    ensures
        r1 == r2,
{
}

/// The recursive shape of the fallback text: one line per name, each
/// preceded by a line break and the original indentation.
pub open spec fn spec_help_lines(names: Seq<Seq<char>>) -> Seq<char>
    decreases names.len(),
{
    if names.len() == 0 {
        Seq::empty()
    } else {
        spec_help_lines(names.drop_last()) + "\n        "@ + names.last()
    }
}

/// The full fallback text: the invocation line, then every listed name.
pub open spec fn spec_help_text() -> Seq<char> {
    "./casbin-flamgraph "@ + spec_help_lines(spec_help_names())
}

/// Renders the fallback listing exactly as `spec_help_text` describes.
pub fn help_text() -> (s: String)
    ensures
        s@ == spec_help_text(),
{
    let names = help_names();
    let mut s = "./casbin-flamgraph ".to_owned();
    let mut i: usize = 0;
    while i < names.len()
        invariant
            names.deep_view() == spec_help_names(),
            names@.len() == spec_help_names().len(),
            i <= names@.len(),
            s@ == "./casbin-flamgraph "@ + spec_help_lines(spec_help_names().take(i as int)),
        decreases names@.len() - i,
    {
        s.append("\n        ");
        s.append(names[i].as_str());
        proof {
            let taken = spec_help_names().take(i + 1);
            assert(taken.drop_last() =~= spec_help_names().take(i as int));
            assert(taken.last() == names@[i as int]@);
        }
        i = i + 1;
    }
    proof {
        assert(spec_help_names().take(spec_help_names().len() as int) =~= spec_help_names());
    }
    s
}

/// Builds the catalog and resolves one name against it: the runner's
/// decision step. `None` means the caller should show the fallback text.
pub fn lookup_scenario(name: &str) -> (r: Option<Scenario>)
    ensures
        match r {
            Some(s) => spec_find(spec_catalog(), name@) == Some(s@),
            None => spec_find(spec_catalog(), name@) is None,
        },
{
    let table = catalog();
    let r = resolve(&table, name);
    match r {
        Some(s) => {
            let copied = Scenario {
                name: clone_string(&s.name),
                kind: s.kind,
                model_path: clone_string(&s.model_path),
                policy_path: match &s.policy_path {
                    Some(p) => Some(clone_string(p)),
                    None => None,
                },
                bulk: s.bulk,
                query: clone_strings(&s.query),
            };
            proof {
                assert(copied@ =~~= s@);
            }
            Some(copied)
        },
        None => None,
    }
}

fn clone_string(s: &String) -> (r: String)
    ensures
        r@ == s@,
{
    s.as_str().to_owned()
}

fn clone_strings(v: &Vec<String>) -> (r: Vec<String>)
    ensures
        r.deep_view() == v.deep_view(),
{
    let mut r: Vec<String> = Vec::new();
    let mut i: usize = 0;
    while i < v.len()
        invariant
            i <= v@.len(),
            r@.len() == i,
            forall|k: int| 0 <= k < i ==> r@[k]@ == v@[k]@,
        decreases v@.len() - i,
    {
        r.push(clone_string(&v[i]));
        i = i + 1;
    }
    proof {
        assert(r.deep_view() =~= v.deep_view());
    }
    r
}

} // verus!
