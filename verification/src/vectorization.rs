use vstd::prelude::*;
use vstd::string::StringExecFns;

use crate::json::{coerce_leaves, extract_leaf_values_recursively, spec_scores, JsonValue};
use crate::scalar::Scalar;
use crate::vector::{Vector, VectorOperations};

verus! {

/// Immutable request configuration: model id, sampling temperature and seed.
///
/// The seed is fixed at construction — drawn once if the caller gave none —
/// so every task of a run reuses the same value.
pub struct ModelParameters {
    model: String,
    temperature: Scalar,
    seed: i64,
}

/// Relies on `rand::random`: an arbitrary seed; nothing is promised of the
/// value.
#[verifier::external_body]
fn random_seed() -> i64 {
    rand::random()
}

impl ModelParameters {
    /// The model id held.
    pub closed spec fn spec_model(self) -> Seq<char> {
        self.model@
    }

    /// The sampling temperature held.
    pub closed spec fn spec_temperature(self) -> Scalar {
        self.temperature
    }

    /// The seed held.
    pub closed spec fn spec_seed(self) -> i64 {
        self.seed
    }

    /// Creates a new `ModelParameters`.
    ///
    /// A missing temperature defaults to zero.  A missing seed is drawn at
    /// random, once, so that every task of the run shares it; nothing more
    /// is promised of a drawn seed.
    pub fn new(model: String, temperature: Option<Scalar>, seed: Option<i64>) -> (r:
        ModelParameters)
        ensures
            r.spec_model() == model@,
            r.spec_temperature() == match temperature {
                Some(t) => t,
                None => Scalar::spec_zero(),
            },
            seed matches Some(s) ==> r.spec_seed() == s,
    {
        let temperature: Scalar = match temperature {
            Some(t) => t,
            None => Scalar::zero(),
        };
        let seed: i64 = match seed {
            Some(s) => s,
            None => random_seed(),
        };
        ModelParameters { model, temperature, seed }
    }

    pub fn get_model(&self) -> (r: String)
        ensures
            r@ == self.spec_model(),
    {
        self.model.clone()
    }

    pub fn get_temperature(&self) -> (r: Scalar)
        ensures
            r == self.spec_temperature(),
    {
        self.temperature
    }

    pub fn get_seed(&self) -> (r: i64)
        ensures
            r == self.spec_seed(),
    {
        self.seed
    }
}

/// The content of a text-subject chat request: the prompt, a fixed joining
/// header, and the text to analyze.
pub open spec fn spec_text_content(prompt: Seq<char>, text: Seq<char>) -> Seq<char> {
    prompt + "\n\nText to analyze: "@ + text
}

/// Builds the content of a text-subject chat request: the prompt followed by
/// the text to analyze.
pub fn build_text_content(prompt: &str, text: &str) -> (r: String)
    ensures
        r@ == spec_text_content(prompt@, text@),
{
    let mut r: String = prompt.to_owned();
    r.append("\n\nText to analyze: ");
    r.append(text);
    r
}

/// Why a reply was rejected by validation.
#[derive(Debug, Clone, Copy, PartialEq, Eq, Structural)]
pub enum ValidationError {
    /// The reply held no leaf value at all.
    EmptyResult,
    /// The reply held two or more leaf values.
    MultipleValues,
    /// The reply's single leaf value compares below zero.
    NegativeValue,
}

impl ValidationError {
    /// A diagnostic line for this rejection.
    pub fn message(&self) -> (r: String)
        ensures
            self is EmptyResult ==> r@ == "Validation error: vector is empty"@,
            self is MultipleValues ==> r@ == "Validation error: vector has more than one element"@,
            self is NegativeValue ==> r@ == "Validation error: vector contains negative elements"@,
    {
        match self {
            ValidationError::EmptyResult => "Validation error: vector is empty".to_owned(),
            ValidationError::MultipleValues => "Validation error: vector has more than one element".to_owned(),
            ValidationError::NegativeValue => "Validation error: vector contains negative elements".to_owned(),
        }
    }
}

/// What validation says of a list of scores: it passes exactly when it holds
/// one single score that does not compare below zero; otherwise the first
/// failing rule, checked in this order — emptiness, surplus, sign.
pub open spec fn spec_validate(scores: Seq<Scalar>) -> Result<(), ValidationError> {
    if scores.len() == 0 {
        Err(ValidationError::EmptyResult)
    } else if scores.len() > 1 {
        Err(ValidationError::MultipleValues)
    } else if scores[0].spec_is_below_zero() {
        Err(ValidationError::NegativeValue)
    } else {
        Ok(())
    }
}

/// Validates a vectorization result: exactly one score, not below zero.
pub fn validate_vectorization_result(vector: &Vec<Scalar>) -> (r: Result<(), ValidationError>)
    ensures
        r == spec_validate(vector@),
        r is Ok <==> vector@.len() == 1 && !vector@[0].spec_is_below_zero(),
{
    if vector.len() == 0 {
        Err(ValidationError::EmptyResult)
    } else if vector.len() > 1 {
        Err(ValidationError::MultipleValues)
    } else if vector[0].is_below_zero() {
        Err(ValidationError::NegativeValue)
    } else {
        Ok(())
    }
}

/// What one parsed reply yields: the single validated score, or the reason
/// validation rejected it.
pub open spec fn spec_evaluate_tree(v: JsonValue) -> Result<Scalar, ValidationError> {
    match spec_validate(spec_scores(v)) {
        Ok(()) => Ok(spec_scores(v)[0]),
        Err(e) => Err(e),
    }
}

/// Flattens a parsed reply into leaf scores and validates them: the single
/// score the reply carries, or the reason it was rejected.
pub fn evaluate_tree(value: &JsonValue) -> (r: Result<Scalar, ValidationError>)
    ensures
        r == spec_evaluate_tree(*value),
{
    let leaves: Vec<JsonValue> = extract_leaf_values_recursively(value);
    let scores: Vec<Scalar> = coerce_leaves(&leaves);
    proof {
        assert(scores@ =~= spec_scores(*value));
    }
    match validate_vectorization_result(&scores) {
        Ok(()) => Ok(scores[0]),
        Err(e) => Err(e),
    }
}

/// What one attempt against the gateway observed, as the surrounding runtime
/// reports it: the request could not be built, the transport failed, the
/// reply carried no content, the content was not JSON, or the content parsed
/// into a tree.
#[derive(Debug, PartialEq, Eq)]
pub enum GatewayEvent {
    /// The chat request could not be constructed.
    BuildFailed,
    /// Sending the request failed.
    TransportFailed,
    /// The reply carried no textual content.
    EmptyReply,
    /// The reply's content was not syntactically valid JSON.
    Unparsable,
    /// The reply's content parsed into this JSON tree.
    Reply(JsonValue),
}

/// Why one attempt is retried.
#[derive(Debug, Clone, Copy, PartialEq, Eq, Structural)]
pub enum RetryError {
    /// The transport failed; try again at once.
    Transport,
    /// The reply carried no content.
    EmptyContent,
    /// The reply's content was not valid JSON.
    Parse,
    /// The reply parsed but failed validation.
    Validation(ValidationError),
}

/// What the vectorizer decides after one attempt.
#[derive(Debug, Clone, Copy, PartialEq, Eq, Structural)]
pub enum AttemptStep {
    /// The reply carried one valid score: the task is finished.
    Done(Scalar),
    /// The attempt failed for a reason that retrying may mend.
    Retry(RetryError),
    /// The request itself could not be built: the task fails for its index
    /// rather than being dropped without a trace.
    Abort,
}

/// The decision the single-prompt vectorizer takes on one attempt's event.
pub open spec fn spec_evaluate_event(e: GatewayEvent) -> AttemptStep {
    match e {
        GatewayEvent::BuildFailed => AttemptStep::Abort,
        GatewayEvent::TransportFailed => AttemptStep::Retry(RetryError::Transport),
        GatewayEvent::EmptyReply => AttemptStep::Retry(RetryError::EmptyContent),
        GatewayEvent::Unparsable => AttemptStep::Retry(RetryError::Parse),
        GatewayEvent::Reply(v) => match spec_evaluate_tree(v) {
            Ok(s) => AttemptStep::Done(s),
            Err(e) => AttemptStep::Retry(RetryError::Validation(e)),
        },
    }
}

/// Decides what one attempt's event means for the single-prompt vectorizer:
/// finish with the validated score, retry, or abort the task.
pub fn evaluate_event(event: &GatewayEvent) -> (r: AttemptStep)
    ensures
        r == spec_evaluate_event(*event),
{
    match event {
        GatewayEvent::BuildFailed => AttemptStep::Abort,
        GatewayEvent::TransportFailed => AttemptStep::Retry(RetryError::Transport),
        GatewayEvent::EmptyReply => AttemptStep::Retry(RetryError::EmptyContent),
        GatewayEvent::Unparsable => AttemptStep::Retry(RetryError::Parse),
        GatewayEvent::Reply(v) => match evaluate_tree(v) {
            Ok(s) => AttemptStep::Done(s),
            Err(e) => AttemptStep::Retry(RetryError::Validation(e)),
        },
    }
}

/// The outcome the retry loop reaches on a given event sequence: the score
/// of the first event that finishes the task, `None` after an abort or when
/// the sequence runs out while every event asked for a retry.
pub open spec fn spec_schedule_outcome(events: Seq<GatewayEvent>) -> Option<Scalar>
    decreases events,
{
    if events.len() == 0 {
        None
    } else {
        match spec_evaluate_event(events.first()) {
            AttemptStep::Done(s) => Some(s),
            AttemptStep::Abort => None,
            AttemptStep::Retry(_) => spec_schedule_outcome(events.drop_first()),
        }
    }
}

/// Runs the single-prompt retry loop over a finite sequence of attempt
/// events: attempts are taken in order, every `Retry` decision is followed
/// by the next attempt, and the first `Done` decision ends the loop.
///
/// Returns the position of the deciding attempt with its score, so a caller
/// sees that a task that got `k` rejected replies before a valid one
/// retried exactly `k` times and succeeded on attempt `k + 1`; returns
/// `None` when the task aborted or the events ran out.
pub fn run_prompt_schedule(events: &Vec<GatewayEvent>) -> (r: Option<(usize, Scalar)>)
    ensures
        match r {
            Some(p) => p.0 < events@.len() && spec_evaluate_event(events@[p.0 as int])
                == AttemptStep::Done(p.1) && (forall|j: int|
                0 <= j < p.0 ==> spec_evaluate_event(events@[j]) is Retry),
            None => exists|a: int|
                0 <= a <= events@.len() && (forall|j: int|
                    0 <= j < a ==> spec_evaluate_event(#[trigger] events@[j]) is Retry) && (a
                    == events@.len() || spec_evaluate_event(events@[a]) is Abort),
        },
        (match r {
            Some(p) => Some(p.1),
            None => None,
        }) == spec_schedule_outcome(events@),
{
    let n: usize = events.len();
    proof {
        assert(events@.skip(0) =~= events@);
    }
    for i in 0..n
        invariant
            n == events@.len(),
            forall|j: int| 0 <= j < i ==> spec_evaluate_event(#[trigger] events@[j]) is Retry,
            spec_schedule_outcome(events@) == spec_schedule_outcome(events@.skip(i as int)),
    {
        let step: AttemptStep = evaluate_event(&events[i]);
        proof {
            assert(events@.skip(i as int).first() == events@[i as int]);
            assert(events@.skip(i as int).drop_first() =~= events@.skip(i + 1));
        }
        match step {
            AttemptStep::Done(s) => {
                return Some((i, s));
            },
            AttemptStep::Abort => {
                proof {
                    let a = i as int;
                    assert(0 <= a <= events@.len() && (forall|j: int|
                        0 <= j < a ==> spec_evaluate_event(#[trigger] events@[j]) is Retry) && (a
                        == events@.len() || spec_evaluate_event(events@[a]) is Abort));
                }
                return None;
            },
            AttemptStep::Retry(_) => {},
        }
    }
    proof {
        let a = events@.len() as int;
        assert(events@.skip(a).len() == 0);
        assert(0 <= a <= events@.len() && (forall|j: int|
            0 <= j < a ==> spec_evaluate_event(#[trigger] events@[j]) is Retry) && (a
            == events@.len() || spec_evaluate_event(events@[a]) is Abort));
    }
    None
}

/// Runs one single-prompt retry loop per schedule, in prompt order, and
/// reports each prompt's outcome at its own index: the concurrent
/// dispatcher's behaviour, stated over whole attempt schedules.
pub fn dispatch_schedules(schedules: &Vec<Vec<GatewayEvent>>) -> (r: Vec<Option<Scalar>>)
    ensures
        r@.len() == schedules@.len(),
        forall|i: int|
            0 <= i < schedules@.len() ==> r@[i] == spec_schedule_outcome(
                #[trigger] schedules@[i]@,
            ),
{
    let mut r: Vec<Option<Scalar>> = Vec::new();
    let n: usize = schedules.len();
    for i in 0..n
        invariant
            n == schedules@.len(),
            r@.len() == i,
            forall|k: int|
                0 <= k < i ==> r@[k] == spec_schedule_outcome(#[trigger] schedules@[k]@),
    {
        let outcome: Option<(usize, Scalar)> = run_prompt_schedule(&schedules[i]);
        r.push(
            match outcome {
                Some(p) => Some(p.1),
                None => None,
            },
        );
    }
    r
}

/// The outcome reported for prompt index `i`: the outcome of the pair that
/// carries `i`, or `None` where no pair does.
pub open spec fn spec_task_outcome(outcomes: Seq<(usize, Option<Scalar>)>, i: int) -> Option<
    Scalar,
> {
    if exists|j: int| 0 <= j < outcomes.len() && (#[trigger] outcomes[j]).0 == i {
        (outcomes[choose|j: int| 0 <= j < outcomes.len() && (#[trigger] outcomes[j]).0 == i]).1
    } else {
        None
    }
}

/// The per-index view of a batch of tagged task outcomes: entry `i` is what
/// the task tagged `i` reported.  Only the pairs themselves matter, not the
/// order they arrived in.
pub open spec fn spec_collect(outcomes: Seq<(usize, Option<Scalar>)>, n: nat) -> Seq<
    Option<Scalar>,
> {
    Seq::new(n, |i: int| spec_task_outcome(outcomes, i))
}

/// Reassembles tagged task outcomes — given in completion order, whatever
/// that was — into prompt order: entry `i` of the result is the outcome the
/// task tagged `i` reported.
pub fn collect_in_order(outcomes: &Vec<(usize, Option<Scalar>)>, n: usize) -> (r: Vec<
    Option<Scalar>,
>)
    requires
        forall|j: int| 0 <= j < outcomes@.len() ==> (#[trigger] outcomes@[j]).0 < n,
        forall|j1: int, j2: int|
            0 <= j1 < j2 < outcomes@.len() ==> (#[trigger] outcomes@[j1]).0 != (
            #[trigger] outcomes@[j2]).0,
    ensures
        r@ == spec_collect(outcomes@, n as nat),
{
    let mut r: Vec<Option<Scalar>> = Vec::new();
    for i in 0..n
        invariant
            r@.len() == i,
            forall|k: int| 0 <= k < i ==> r@[k] is None,
    {
        r.push(None);
    }
    let m: usize = outcomes.len();
    for j in 0..m
        invariant
            m == outcomes@.len(),
            r@.len() == n,
            forall|k: int| 0 <= k < m ==> (#[trigger] outcomes@[k]).0 < n,
            forall|j1: int, j2: int|
                0 <= j1 < j2 < m ==> (#[trigger] outcomes@[j1]).0 != (#[trigger] outcomes@[j2]).0,
            forall|k: int| 0 <= k < j ==> r@[(#[trigger] outcomes@[k]).0 as int] == outcomes@[k].1,
            forall|i: int|
                0 <= i < n && (forall|k: int| 0 <= k < j ==> (#[trigger] outcomes@[k]).0 != i)
                    ==> r@[i] is None,
    {
        let (index, outcome): (usize, Option<Scalar>) = outcomes[j];
        r.set(index, outcome);
    }
    proof {
        assert forall|i: int| 0 <= i < n implies r@[i] == spec_task_outcome(outcomes@, i) by {
            if exists|k: int| 0 <= k < outcomes@.len() && (#[trigger] outcomes@[k]).0 == i {
                let k = choose|k: int|
                    0 <= k < outcomes@.len() && (#[trigger] outcomes@[k]).0 == i;
                assert(r@[i] == outcomes@[k].1);
            }
        }
        assert(r@ =~= spec_collect(outcomes@, n as nat));
    }
    r
}

/// Completion order carries no meaning: two batches of tagged outcomes that
/// hold the same pairs — each index reported once, in whatever order —
/// reassemble into the same per-index view.
pub proof fn lemma_collect_order_independent(
    a: Seq<(usize, Option<Scalar>)>,
    b: Seq<(usize, Option<Scalar>)>,
    n: nat,
)
    requires
        a.to_multiset() == b.to_multiset(),
        forall|j1: int, j2: int| 0 <= j1 < j2 < a.len() ==> (#[trigger] a[j1]).0 != (
        #[trigger] a[j2]).0,
        forall|j1: int, j2: int| 0 <= j1 < j2 < b.len() ==> (#[trigger] b[j1]).0 != (
        #[trigger] b[j2]).0,
    ensures
        spec_collect(a, n) == spec_collect(b, n),
{
    broadcast use vstd::seq_lib::group_to_multiset_ensures;

    assert forall|i: int| 0 <= i < n implies spec_task_outcome(a, i) == spec_task_outcome(b, i) by {
        lemma_task_outcome_same(a, b, i);
    }
    assert(spec_collect(a, n) =~= spec_collect(b, n));
}

/// The outcome reported for one index is the same in two batches that hold
/// the same pairs.
proof fn lemma_task_outcome_same(
    a: Seq<(usize, Option<Scalar>)>,
    b: Seq<(usize, Option<Scalar>)>,
    i: int,
)
    requires
        a.to_multiset() == b.to_multiset(),
        forall|j1: int, j2: int| 0 <= j1 < j2 < a.len() ==> (#[trigger] a[j1]).0 != (
        #[trigger] a[j2]).0,
        forall|j1: int, j2: int| 0 <= j1 < j2 < b.len() ==> (#[trigger] b[j1]).0 != (
        #[trigger] b[j2]).0,
    ensures
        spec_task_outcome(a, i) == spec_task_outcome(b, i),
{
    broadcast use vstd::seq_lib::group_to_multiset_ensures;

    if exists|j: int| 0 <= j < a.len() && (#[trigger] a[j]).0 == i {
        let ja = choose|j: int| 0 <= j < a.len() && (#[trigger] a[j]).0 == i;
        assert(a.contains(a[ja]));
        assert(b.to_multiset().count(a[ja]) > 0);
        assert(b.contains(a[ja]));
        let jb = choose|j: int| 0 <= j < b.len() && b[j] == a[ja];
        assert((b[jb]).0 == i);
        let jc = choose|j: int| 0 <= j < b.len() && (#[trigger] b[j]).0 == i;
        assert(b[jc].0 == i);
        if jb != jc {
            assert(b[jb].0 != b[jc].0);
        }
        assert(spec_task_outcome(b, i) == b[jc].1);
        assert(spec_task_outcome(a, i) == a[ja].1);
    } else {
        if exists|j: int| 0 <= j < b.len() && (#[trigger] b[j]).0 == i {
            let jb = choose|j: int| 0 <= j < b.len() && (#[trigger] b[j]).0 == i;
            assert(b.contains(b[jb]));
            assert(a.to_multiset().count(b[jb]) > 0);
            assert(a.contains(b[jb]));
            let ja = choose|j: int| 0 <= j < a.len() && a[j] == b[jb];
            assert((a[ja]).0 == i);
        }
    }
}

/// A dispatcher that runs one retry loop per prompt and reports each
/// prompt's outcome exactly once — tagged with its index, in whatever order
/// the tasks completed — reassembles precisely the outcome sequence of
/// dispatching the schedules one after another in prompt order.
pub proof fn lemma_collect_matches_dispatch(
    pairs: Seq<(usize, Option<Scalar>)>,
    schedules: Seq<Seq<GatewayEvent>>,
)
    requires
        forall|j: int|
            0 <= j < pairs.len() ==> (#[trigger] pairs[j]).0 < schedules.len() && pairs[j].1
                == spec_schedule_outcome(schedules[pairs[j].0 as int]),
        forall|j1: int, j2: int| 0 <= j1 < j2 < pairs.len() ==> (#[trigger] pairs[j1]).0 != (
        #[trigger] pairs[j2]).0,
        forall|i: int|
            #![trigger schedules[i]]
            0 <= i < schedules.len() ==> exists|j: int|
                0 <= j < pairs.len() && (#[trigger] pairs[j]).0 == i,
    ensures
        spec_collect(pairs, schedules.len() as nat) == Seq::new(
            schedules.len() as nat,
            |i: int| spec_schedule_outcome(schedules[i]),
        ),
{
    assert forall|i: int| 0 <= i < schedules.len() implies spec_task_outcome(pairs, i)
        == spec_schedule_outcome(schedules[i]) by {
        let j = choose|j: int| 0 <= j < pairs.len() && (#[trigger] pairs[j]).0 == i;
        let jc = choose|j: int| 0 <= j < pairs.len() && (#[trigger] pairs[j]).0 == i;
        if jc != j {
            assert(pairs[j].0 != pairs[jc].0);
        }
        assert(spec_task_outcome(pairs, i) == pairs[j].1);
    }
    assert(spec_collect(pairs, schedules.len() as nat) =~= Seq::new(
        schedules.len() as nat,
        |i: int| spec_schedule_outcome(schedules[i]),
    ));
}

/// Every prompt produced a score: the scores in prompt order.  `None` as
/// soon as any prompt's outcome is missing, so a partial run can never pass
/// for a complete one.
pub fn completed_vector(results: &Vec<Option<Scalar>>) -> (r: Option<Vec<Scalar>>)
    ensures
        match r {
            Some(v) => v@.len() == results@.len() && (forall|i: int|
                0 <= i < results@.len() ==> results@[i] == Some(v@[i])),
            None => exists|i: int| 0 <= i < results@.len() && (#[trigger] results@[i]) is None,
        },
{
    let mut v: Vec<Scalar> = Vec::new();
    let n: usize = results.len();
    for i in 0..n
        invariant
            n == results@.len(),
            v@.len() == i,
            forall|k: int| 0 <= k < i ==> results@[k] == Some(v@[k]),
    {
        match results[i] {
            Some(s) => v.push(s),
            None => {
                return None;
            },
        }
    }
    Some(v)
}

/// One whole vectorization run over given attempt schedules, one schedule
/// per prompt: runs every prompt's retry loop, reassembles the scores in
/// prompt order, and — only when every prompt produced a score — replaces
/// the vector's scores wholesale.  Returns whether the run was complete; an
/// incomplete run leaves the vector untouched.
pub fn run_vectorization<T>(vector: &mut Vector<T>, schedules: &Vec<Vec<GatewayEvent>>) -> (complete:
    bool)
    ensures
        complete <==> (forall|i: int|
            0 <= i < schedules@.len() ==> (#[trigger] spec_schedule_outcome(schedules@[i]@))
                is Some),
        complete ==> final(vector).spec_vector().len() == schedules@.len() && (forall|i: int|
            0 <= i < schedules@.len() ==> Some(final(vector).spec_vector()[i])
                == spec_schedule_outcome(#[trigger] schedules@[i]@)),
        !complete ==> *final(vector) == *old(vector),
        final(vector).spec_data() == old(vector).spec_data(),
        final(vector).spec_data_type() == old(vector).spec_data_type(),
{
    let results: Vec<Option<Scalar>> = dispatch_schedules(schedules);
    match completed_vector(&results) {
        Some(v) => {
            proof {
                assert forall|i: int|
                    0 <= i < schedules@.len() implies (#[trigger] spec_schedule_outcome(
                    schedules@[i]@,
                )) is Some by {
                    assert(results@[i] == Some(v@[i]));
                }
            }
            vector.overwrite_vector(v);
            true
        },
        None => {
            proof {
                let i = choose|i: int| 0 <= i < results@.len() && (#[trigger] results@[i]) is None;
                assert(spec_schedule_outcome(schedules@[i]@) is None);
            }
            false
        },
    }
}

/// Against a gateway that answers every attempt of every prompt with one
/// same reply carrying a single valid score, every prompt's retry loop ends
/// at once with that score: a dispatch over `n` such schedules yields `n`
/// results, every one the same score, in prompt order.
pub proof fn lemma_uniform_schedules(
    schedules: Seq<Seq<GatewayEvent>>,
    reply: JsonValue,
    s: Scalar,
)
    requires
        spec_evaluate_tree(reply) == Ok::<Scalar, ValidationError>(s),
        forall|i: int| 0 <= i < schedules.len() ==> (#[trigger] schedules[i]).len() > 0,
        forall|i: int, j: int|
            0 <= i < schedules.len() && 0 <= j < schedules[i].len() ==> (
            #[trigger] schedules[i][j]) == GatewayEvent::Reply(reply),
    ensures
        forall|i: int|
            0 <= i < schedules.len() ==> (#[trigger] spec_schedule_outcome(schedules[i])) == Some(
                s,
            ),
{
    assert forall|i: int|
        0 <= i < schedules.len() implies (#[trigger] spec_schedule_outcome(schedules[i])) == Some(
        s,
    ) by {
        assert(schedules[i].first() == schedules[i][0]);
        assert(spec_evaluate_event(schedules[i].first()) == AttemptStep::Done(s));
    }
}

} // verus!
