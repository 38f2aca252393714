//! Fixture selection and the differential comparison model.
//!
//! A fixture is an opaque, previously captured execution unit,
//! identified by a stable name. Before any replay, every record on the
//! program's skip-list is removed from the corpus. In differential
//! mode, each selected fixture is executed against both targets and
//! the two observed effects must agree; the set of disagreeing
//! fixtures is the failure set, and a non-empty failure set is fatal.

use vstd::prelude::*;
use crate::text;

verus! {

/// The observed outcome of one fixture, executed against the native
/// target and against the candidate target. The effects are whatever
/// the conformance driver reports for the execution, already
/// normalized by it; the library only compares them.
pub struct FixtureOutcome {
    pub name: String,
    pub builtin_effects: Vec<u8>,
    pub candidate_effects: Vec<u8>,
}

/// The mathematical image of a fixture outcome.
pub struct FixtureOutcomeView {
    pub name: Seq<char>,
    pub builtin_effects: Seq<u8>,
    pub candidate_effects: Seq<u8>,
}

impl View for FixtureOutcome {
    type V = FixtureOutcomeView;

    open spec fn view(&self) -> FixtureOutcomeView {
        FixtureOutcomeView {
            name: self.name@,
            builtin_effects: self.builtin_effects@,
            candidate_effects: self.candidate_effects@,
        }
    }
}

/// Whether a name stands on a skip-list.
pub open spec fn spec_on_skip_list(skip: Seq<Seq<char>>, name: Seq<char>) -> bool {
    exists|j: int| 0 <= j < skip.len() && skip[j] == name
}

/// The corpus with every skip-listed record removed, order and
/// multiplicity of the rest kept.
pub open spec fn spec_select(corpus: Seq<Seq<char>>, skip: Seq<Seq<char>>) -> Seq<Seq<char>>
    decreases corpus.len(),
{
    if corpus.len() == 0 {
        Seq::empty()
    } else {
        let rest = spec_select(corpus.drop_last(), skip);
        if spec_on_skip_list(skip, corpus.last()) {
            rest
        } else {
            rest.push(corpus.last())
        }
    }
}

/// Whether one fixture outcome is a disagreement between the targets.
pub open spec fn spec_fixture_fails(o: FixtureOutcomeView) -> bool {
    o.builtin_effects != o.candidate_effects
}

/// The names of the fixtures on which the two targets disagreed.
pub open spec fn spec_failures(outcomes: Seq<FixtureOutcomeView>) -> Seq<Seq<char>>
    decreases outcomes.len(),
{
    if outcomes.len() == 0 {
        Seq::empty()
    } else {
        let rest = spec_failures(outcomes.drop_last());
        if spec_fixture_fails(outcomes.last()) {
            rest.push(outcomes.last().name)
        } else {
            rest
        }
    }
}

/// Whether `name` equals some entry of `skip`.
fn on_skip_list(skip: &Vec<String>, name: &str) -> (r: bool)
    ensures
        r == spec_on_skip_list(skip@.map_values(|s: String| s@), name@),
{
    let ghost skipv = skip@.map_values(|s: String| s@);
    let n = skip.len();
    let mut j: usize = 0;
    while j < n
        invariant
            j <= n,
            n == skip@.len(),
            skipv == skip@.map_values(|s: String| s@),
            forall|k: int| 0 <= k < j ==> skipv[k] != name@,
        decreases n - j,
    {
        assert(skipv[j as int] == skip@[j as int]@);
        if text::str_eq(skip[j].as_str(), name) {
            assert(spec_on_skip_list(skipv, name@));
            return true;
        }
        j += 1;
    }
    false
}

/// Load-time fixture selection: the full named corpus with every
/// record on the program's skip-list removed.
pub fn select_fixtures(corpus: &Vec<String>, skip: &Vec<String>) -> (r: Vec<String>)
    ensures
        r@.map_values(|s: String| s@) == spec_select(
            corpus@.map_values(|s: String| s@),
            skip@.map_values(|s: String| s@),
        ),
{
    let ghost corpusv = corpus@.map_values(|s: String| s@);
    let ghost skipv = skip@.map_values(|s: String| s@);
    let n = corpus.len();
    let mut r: Vec<String> = Vec::new();
    let mut i: usize = 0;
    while i < n
        invariant
            i <= n,
            n == corpus@.len(),
            corpusv == corpus@.map_values(|s: String| s@),
            skipv == skip@.map_values(|s: String| s@),
            r@.map_values(|s: String| s@) == spec_select(corpusv.take(i as int), skipv),
        decreases n - i,
    {
        assert(corpusv[i as int] == corpus@[i as int]@);
        proof {
            assert(corpusv.take(i + 1).drop_last() =~= corpusv.take(i as int));
            assert(corpusv.take(i + 1).last() == corpusv[i as int]);
        }
        if !on_skip_list(skip, corpus[i].as_str()) {
            r.push(corpus[i].clone());
            assert(r@.map_values(|s: String| s@) =~= spec_select(corpusv.take(i + 1), skipv));
        } else {
            assert(r@.map_values(|s: String| s@) =~= spec_select(corpusv.take(i + 1), skipv));
        }
        i += 1;
    }
    proof {
        assert(corpusv.take(n as int) =~= corpusv);
    }
    r
}

/// Differential comparison: the names of the fixtures on which the
/// two executions disagreed. An empty result is the passing verdict.
pub fn differential_failures(outcomes: &Vec<FixtureOutcome>) -> (r: Vec<String>)
    ensures
        r@.map_values(|s: String| s@) == spec_failures(
            outcomes@.map_values(|o: FixtureOutcome| o@),
        ),
{
    let ghost ov = outcomes@.map_values(|o: FixtureOutcome| o@);
    let n = outcomes.len();
    let mut r: Vec<String> = Vec::new();
    let mut i: usize = 0;
    while i < n
        invariant
            i <= n,
            n == outcomes@.len(),
            ov == outcomes@.map_values(|o: FixtureOutcome| o@),
            r@.map_values(|s: String| s@) == spec_failures(ov.take(i as int)),
        decreases n - i,
    {
        assert(ov[i as int] == outcomes@[i as int]@);
        proof {
            assert(ov.take(i + 1).drop_last() =~= ov.take(i as int));
            assert(ov.take(i + 1).last() == ov[i as int]);
        }
        let agree = text::bytes_eq(
            outcomes[i].builtin_effects.as_slice(),
            outcomes[i].candidate_effects.as_slice(),
        );
        if !agree {
            r.push(outcomes[i].name.clone());
            assert(r@.map_values(|s: String| s@) =~= spec_failures(ov.take(i + 1)));
        } else {
            assert(r@.map_values(|s: String| s@) =~= spec_failures(ov.take(i + 1)));
        }
        i += 1;
    }
    proof {
        assert(ov.take(n as int) =~= ov);
    }
    r
}

/// Whether the two targets agreed on every fixture. A non-empty
/// failure set is fatal for the run.
pub fn differential_replay_passed(outcomes: &Vec<FixtureOutcome>) -> (r: bool)
    ensures
        r <==> spec_failures(outcomes@.map_values(|o: FixtureOutcome| o@)).len() == 0,
{
    let failures = differential_failures(outcomes);
    failures.len() == 0
}

/// A record on the skip-list is never selected: no entry of the
/// selected corpus stands on the skip-list, in any replay mode.
pub proof fn lemma_skip_list_excluded(corpus: Seq<Seq<char>>, skip: Seq<Seq<char>>)
    ensures
        forall|k: int|
            0 <= k < spec_select(corpus, skip).len() ==> !spec_on_skip_list(
                skip,
                #[trigger] spec_select(corpus, skip)[k],
            ),
    decreases corpus.len(),
{
    if corpus.len() > 0 {
        lemma_skip_list_excluded(corpus.drop_last(), skip);
        let rest = spec_select(corpus.drop_last(), skip);
        let sel = spec_select(corpus, skip);
        assert forall|k: int| 0 <= k < sel.len() implies !spec_on_skip_list(skip, sel[k]) by {
            if spec_on_skip_list(skip, corpus.last()) {
                assert(sel[k] == rest[k]);
            } else {
                if k < rest.len() {
                    assert(sel[k] == rest[k]);
                } else {
                    assert(sel[k] == corpus.last());
                }
            }
        }
    }
}

/// A record not on the skip-list is kept by selection.
pub proof fn lemma_selection_keeps(corpus: Seq<Seq<char>>, skip: Seq<Seq<char>>, i: int)
    requires
        0 <= i < corpus.len(),
        !spec_on_skip_list(skip, corpus[i]),
    ensures
        spec_select(corpus, skip).contains(corpus[i]),
    decreases corpus.len(),
{
    if i == corpus.len() - 1 {
        assert(spec_select(corpus, skip).last() == corpus[i]);
    } else {
        lemma_selection_keeps(corpus.drop_last(), skip, i);
        let rest = spec_select(corpus.drop_last(), skip);
        let j = choose|j: int| 0 <= j < rest.len() && rest[j] == corpus[i];
        assert(spec_select(corpus, skip)[j] == corpus[i]);
    }
}

/// With an empty skip-list, selection keeps the whole corpus.
pub proof fn lemma_empty_skip_list_keeps_all(corpus: Seq<Seq<char>>, skip: Seq<Seq<char>>)
    requires
        skip.len() == 0,
    ensures
        spec_select(corpus, skip) == corpus,
    decreases corpus.len(),
{
    if corpus.len() == 0 {
        assert(spec_select(corpus, skip) =~= corpus);
    } else {
        lemma_empty_skip_list_keeps_all(corpus.drop_last(), skip);
        assert(spec_select(corpus, skip) =~= corpus);
    }
}

/// Comparing a target to itself never fails: where every fixture's
/// two observed effects are byte-identical, the failure set is empty.
pub proof fn lemma_self_comparison_never_fails(outcomes: Seq<FixtureOutcomeView>)
    requires
        forall|i: int|
            0 <= i < outcomes.len() ==> (#[trigger] outcomes[i]).builtin_effects
                == outcomes[i].candidate_effects,
    ensures
        spec_failures(outcomes) == Seq::<Seq<char>>::empty(),
    decreases outcomes.len(),
{
    if outcomes.len() == 0 {
        assert(spec_failures(outcomes) =~= Seq::<Seq<char>>::empty());
    } else {
        assert(outcomes.drop_last() =~= outcomes.take(outcomes.len() - 1));
        assert(forall|i: int|
            0 <= i < outcomes.drop_last().len() ==> outcomes.drop_last()[i] == outcomes[i]);
        lemma_self_comparison_never_fails(outcomes.drop_last());
        assert(!spec_fixture_fails(outcomes.last()));
    }
}

/// The differential replay's sanity property: for a corpus with an
/// empty skip-list, replayed against two targets that report
/// byte-identical effects for every fixture — as byte-identical
/// artifacts do — every fixture is selected and every fixture reports
/// equivalence.
pub proof fn lemma_differential_replay_sanity(
    corpus: Seq<Seq<char>>,
    skip: Seq<Seq<char>>,
    outcomes: Seq<FixtureOutcomeView>,
)
    requires
        skip.len() == 0,
        forall|i: int|
            0 <= i < outcomes.len() ==> (#[trigger] outcomes[i]).builtin_effects
                == outcomes[i].candidate_effects,
    ensures
        spec_select(corpus, skip) == corpus,
        spec_failures(outcomes) == Seq::<Seq<char>>::empty(),
{
    lemma_empty_skip_list_keeps_all(corpus, skip);
    lemma_self_comparison_never_fails(outcomes);
}

/// Whether a fixture fails depends on that fixture's own pair of
/// observations alone: the failure set distributes over splitting the
/// outcome list, so removing one fixture from the corpus never changes
/// the verdict on any other fixture.
pub proof fn lemma_failures_split(a: Seq<FixtureOutcomeView>, b: Seq<FixtureOutcomeView>)
    ensures
        spec_failures(a + b) == spec_failures(a) + spec_failures(b),
    decreases b.len(),
{
    if b.len() == 0 {
        assert(a + b =~= a);
        assert(spec_failures(a) + spec_failures(b) =~= spec_failures(a));
    } else {
        lemma_failures_split(a, b.drop_last());
        assert((a + b).drop_last() =~= a + b.drop_last());
        assert((a + b).last() == b.last());
        if spec_fixture_fails(b.last()) {
            assert(spec_failures(a + b) =~= spec_failures(a) + spec_failures(b));
        } else {
            assert(spec_failures(a + b) =~= spec_failures(a) + spec_failures(b));
        }
    }
}

} // verus!
