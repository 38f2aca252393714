//! Fixture selection and the differential comparison.

use cbm_harness::replay::{differential_failures, differential_replay_passed, select_fixtures, FixtureOutcome};

fn corpus() -> Vec<String> {
    vec![
        "aaa".to_string(),
        "bbb".to_string(),
        "ccc".to_string(),
        "ddd".to_string(),
    ]
}

#[test]
fn skip_listed_fixtures_are_never_selected() {
    let skip = vec!["bbb".to_string(), "ddd".to_string()];
    let selected = select_fixtures(&corpus(), &skip);
    assert_eq!(selected, vec!["aaa".to_string(), "ccc".to_string()]);
    for name in &skip {
        assert!(!selected.contains(name));
    }
}

#[test]
fn empty_skip_list_keeps_the_whole_corpus() {
    let selected = select_fixtures(&corpus(), &Vec::new());
    assert_eq!(selected, corpus());
}

#[test]
fn skip_entries_absent_from_the_corpus_change_nothing() {
    let skip = vec!["zzz".to_string()];
    assert_eq!(select_fixtures(&corpus(), &skip), corpus());
}

fn outcome(name: &str, builtin: &[u8], candidate: &[u8]) -> FixtureOutcome {
    FixtureOutcome {
        name: name.to_string(),
        builtin_effects: builtin.to_vec(),
        candidate_effects: candidate.to_vec(),
    }
}

#[test]
fn comparing_a_target_to_itself_never_fails() {
    // Byte-identical artifacts report identical effects for every
    // fixture, and the failure set of identical effects is empty.
    let outcomes = vec![
        outcome("aaa", b"state-1", b"state-1"),
        outcome("bbb", b"", b""),
        outcome("ccc", b"err:42", b"err:42"),
    ];
    assert!(differential_failures(&outcomes).is_empty());
}

#[test]
fn disagreeing_fixtures_are_reported_by_name() {
    let outcomes = vec![
        outcome("aaa", b"state-1", b"state-1"),
        outcome("bbb", b"state-2", b"state-X"),
        outcome("ccc", b"ok", b"ok"),
        outcome("ddd", b"ok", b"okk"),
    ];
    assert_eq!(
        differential_failures(&outcomes),
        vec!["bbb".to_string(), "ddd".to_string()]
    );
}

#[test]
fn removing_a_fixture_leaves_unrelated_verdicts_unchanged() {
    let full = vec![
        outcome("aaa", b"ok", b"ok"),
        outcome("bbb", b"x", b"y"),
        outcome("ccc", b"p", b"q"),
    ];
    let without_bbb = vec![
        outcome("aaa", b"ok", b"ok"),
        outcome("ccc", b"p", b"q"),
    ];
    let full_failures = differential_failures(&full);
    let rest_failures = differential_failures(&without_bbb);
    // The other fixtures' verdicts are exactly what they were.
    assert_eq!(full_failures, vec!["bbb".to_string(), "ccc".to_string()]);
    assert_eq!(rest_failures, vec!["ccc".to_string()]);
    assert_eq!(
        full_failures.contains(&"ccc".to_string()),
        rest_failures.contains(&"ccc".to_string())
    );
    assert_eq!(
        full_failures.contains(&"aaa".to_string()),
        rest_failures.contains(&"aaa".to_string())
    );
}

#[test]
fn end_to_end_sanity_replay() {
    // A corpus with zero skip-listed entries, replayed against two
    // byte-identical targets: every fixture is selected and every
    // fixture reports equivalence.
    let selected = select_fixtures(&corpus(), &Vec::new());
    let outcomes: Vec<FixtureOutcome> = selected
        .iter()
        .map(|name| outcome(name, b"effects", b"effects"))
        .collect();
    assert_eq!(outcomes.len(), corpus().len());
    assert!(differential_failures(&outcomes).is_empty());
    assert!(differential_replay_passed(&outcomes));
}

#[test]
fn any_disagreement_is_fatal() {
    let outcomes = vec![
        outcome("aaa", b"ok", b"ok"),
        outcome("bbb", b"ok", b"different"),
    ];
    assert!(!differential_replay_passed(&outcomes));
}
