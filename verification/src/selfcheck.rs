//! The self-check of a coding challenge: before a challenge is published,
//! its reference solution is run on the evaluator's examples, on a number of
//! static seeds and on a number of random seeds, one seed after the other,
//! and the first seed that it does not pass ends the check.

use crate::judge::{
    CheckTestcaseError, EvaluatorRequest, Example, Judge, JudgeError, Limits, Operation, PendingInput,
    RunRecord, Submission,
};
use crate::seeds::{hyphenated, id_text, is_random_id, random_id, static_seed, static_seed_text};
use vstd::prelude::*;

verus! {

/// What is checked: a challenge's evaluator and reference solution, the
/// limits the solution runs under, and how many static and random seeds are
/// tried beyond the examples.
#[derive(Debug, Clone, PartialEq, Eq)]
pub struct CheckChallenge {
    pub judge: Judge,
    pub challenge_id: u128,
    pub solution_environment: String,
    pub solution_code: String,
    pub time_limit: u64,
    pub memory_limit: u64,
    pub static_tests: u8,
    pub random_tests: u8,
}

/// Why a challenge did not pass its self-check.
#[derive(Debug, Clone, PartialEq, Eq)]
pub enum CheckError {
    /// The evaluator lists no example.
    NoExamples,
    /// The sandbox does not know the solution's environment.
    EnvironmentNotFound,
    /// The evaluator ended with a status other than zero.
    EvaluatorFailed(RunRecord),
    /// The evaluator printed what is not an answer.
    InvalidOutput(RunRecord),
    /// The reference solution failed on a test.
    TestcaseFailed(CheckTestcaseError),
}

/// A self-check that waits for the evaluator's list of examples.
#[derive(Debug, Clone, PartialEq, Eq)]
pub struct ListingExamples {
    pub check: CheckChallenge,
}

/// A self-check that waits for the example of `current`; the seeds in
/// `remaining` come after it, in this order.
#[derive(Debug, Clone, PartialEq, Eq)]
pub struct CheckingExamples {
    pub check: CheckChallenge,
    pub current: String,
    pub remaining: Vec<String>,
}

/// What the judge answers when it is asked for the example of a seed.
pub type ExampleReply = Result<Result<Example, CheckTestcaseError>, JudgeError>;

/// How a self-check ends. The outer error is a fault of the judge that is
/// no finding about the challenge.
pub type CheckOutcome = Result<Result<(), CheckError>, JudgeError>;

/// Where a self-check stands.
#[derive(Debug, PartialEq, Eq)]
pub enum CheckStep {
    /// The example of the next seed is to be made.
    Next(CheckingExamples, PendingInput, EvaluatorRequest),
    /// The check is over.
    Done(CheckOutcome),
}

/// The texts of a sequence of seeds.
pub open spec fn texts(seeds: Seq<String>) -> Seq<Seq<char>> {
    seeds.map_values(|s: String| s@)
}

/// The seeds of a self-check, as texts and in the order in which they are
/// tried: the examples, then the static seeds by index, then the random
/// seeds.
pub open spec fn plan_text(
    examples: Seq<String>,
    challenge_id: u128,
    static_tests: u8,
    random_ids: Seq<u128>,
) -> Seq<Seq<char>> {
    texts(examples) + Seq::new(
        static_tests as nat,
        |i: int| static_seed_text(i as u8, challenge_id),
    ) + random_ids.map_values(|id: u128| hyphenated(id))
}

/// What is asked of the judge for one seed: the example of that seed, with
/// the reference solution run under the challenge's limits.
pub open spec fn asks(check: CheckChallenge, seed: String) -> (PendingInput, EvaluatorRequest) {
    (
        PendingInput {
            seed,
            reference: Submission {
                environment: check.solution_environment,
                code: check.solution_code,
            },
            limits: Limits { time: Some(check.time_limit), memory: Some(check.memory_limit) },
        },
        EvaluatorRequest {
            environment: check.judge.evaluator.environment,
            source: check.judge.evaluator.code,
            operation: Operation::Generate { seed },
            limits: Limits { time: None, memory: None },
        },
    )
}

/// How the reply on the list of examples ends the check, if it does.
/// A failed or invalid evaluator is a finding about the challenge; any
/// other error is the judge's. An empty list ends the check at once.
pub open spec fn listing_outcome(reply: Result<Vec<String>, JudgeError>) -> Option<CheckOutcome> {
    match reply {
        Err(JudgeError::EvaluatorFailed(record)) => Some(
            Ok(Err(CheckError::EvaluatorFailed(record))),
        ),
        Err(JudgeError::InvalidOutput(record)) => Some(Ok(Err(CheckError::InvalidOutput(record)))),
        Err(e) => Some(Err(e)),
        Ok(examples) => if examples@.len() == 0 {
            Some(Ok(Err(CheckError::NoExamples)))
        } else {
            None
        },
    }
}

/// How the reply on the example of `seed` ends the check, if it does: every
/// reply but an example does, and a failed test is reported with its seed.
pub open spec fn example_outcome(seed: String, reply: ExampleReply) -> Option<CheckOutcome> {
    match reply {
        Err(JudgeError::EnvironmentNotFound) => Some(Ok(Err(CheckError::EnvironmentNotFound))),
        Err(JudgeError::EvaluatorFailed(record)) => Some(
            Ok(Err(CheckError::EvaluatorFailed(record))),
        ),
        Err(JudgeError::InvalidOutput(record)) => Some(Ok(Err(CheckError::InvalidOutput(record)))),
        Err(JudgeError::Sandbox) => Some(Err(JudgeError::Sandbox)),
        Ok(Err(failure)) => Some(
            Ok(
                Err(
                    CheckError::TestcaseFailed(
                        CheckTestcaseError { seed, result: failure.result },
                    ),
                ),
            ),
        ),
        Ok(Ok(_)) => None,
    }
}

/// `step` is the state in which `seeds` are still to be tried, the first of
/// them being asked for now; with no seed left, the check has passed.
pub open spec fn tries(check: CheckChallenge, seeds: Seq<String>, step: CheckStep) -> bool {
    if seeds.len() == 0 {
        step == CheckStep::Done(Ok(Ok(())))
    } else {
        &&& step matches CheckStep::Next(state, pending, request)
        &&& state.check == check
        &&& state.current == seeds[0]
        &&& state.remaining@ == seeds.drop_first()
        &&& (pending, request) == asks(check, seeds[0])
    }
}

/// The seeds that a self-check has asked for, and how it ended if it has,
/// when it tries `plan` and the judge's replies come as in `replies`.
///
/// One seed is asked for at a time. The reply on it either ends the check
/// or lets the next seed be asked for.
pub open spec fn run(plan: Seq<String>, replies: Seq<ExampleReply>) -> (
    Seq<String>,
    Option<CheckOutcome>,
)
    decreases plan.len(),
{
    if plan.len() == 0 {
        (Seq::empty(), Some(Ok(Ok(()))))
    } else if replies.len() == 0 {
        (seq![plan[0]], None)
    } else {
        match example_outcome(plan[0], replies[0]) {
            Some(outcome) => (seq![plan[0]], Some(outcome)),
            None => {
                let rest = run(plan.drop_first(), replies.drop_first());
                (seq![plan[0]] + rest.0, rest.1)
            },
        }
    }
}

/// The seeds of a self-check, in the order in which they are tried.
pub fn seed_plan(
    examples: Vec<String>,
    challenge_id: u128,
    static_tests: u8,
    random_ids: &Vec<u128>,
) -> (plan: Vec<String>)
    ensures
        texts(plan@) == plan_text(examples@, challenge_id, static_tests, random_ids@),
        plan@.take(examples@.len() as int) == examples@,
{
    let ghost given = examples@;
    let mut plan = examples;
    let mut i: u8 = 0;
    while i < static_tests
        invariant
            i <= static_tests,
            plan@.len() == given.len() + i,
            plan@.take(given.len() as int) == given,
            texts(plan@) == texts(given) + Seq::new(
                i as nat,
                |k: int| static_seed_text(k as u8, challenge_id),
            ),
        decreases static_tests - i,
    {
        let seed = static_seed(i, challenge_id);
        let ghost before = plan@;
        plan.push(seed);
        proof {
            assert(texts(plan@) =~= texts(before).push(seed@));
        }
        i += 1;
    }
    let ghost fixed = texts(plan@);
    let mut j: usize = 0;
    while j < random_ids.len()
        invariant
            j <= random_ids@.len(),
            plan@.len() == given.len() + static_tests + j,
            plan@.take(given.len() as int) == given,
            fixed == texts(given) + Seq::new(
                static_tests as nat,
                |k: int| static_seed_text(k as u8, challenge_id),
            ),
            texts(plan@) == fixed + random_ids@.take(j as int).map_values(
                |id: u128| hyphenated(id),
            ),
        decreases random_ids@.len() - j,
    {
        let seed = id_text(random_ids[j]);
        let ghost before = plan@;
        plan.push(seed);
        proof {
            assert(texts(plan@) =~= texts(before).push(seed@));
        }
        j += 1;
    }
    plan
}

/// Draws `count` random identifiers.
pub fn draw_ids(count: u8) -> (ids: Vec<u128>)
    ensures
        ids@.len() == count,
        forall|i: int| 0 <= i < ids@.len() ==> is_random_id(#[trigger] ids@[i]),
{
    let mut ids: Vec<u128> = Vec::new();
    let mut i: u8 = 0;
    while i < count
        invariant
            i <= count,
            ids@.len() == i,
            forall|k: int| 0 <= k < ids@.len() ==> is_random_id(#[trigger] ids@[k]),
        decreases count - i,
    {
        let id = random_id();
        ids.push(id);
        i += 1;
    }
    ids
}

impl CheckChallenge {
    /// The reference solution as a submission.
    pub fn solution(&self) -> (r: Submission)
        ensures
            r == (Submission {
                environment: self.solution_environment,
                code: self.solution_code,
            }),
    {
        Submission {
            environment: self.solution_environment.clone(),
            code: self.solution_code.clone(),
        }
    }

    /// The limits that the reference solution runs under.
    pub fn limits(&self) -> (r: Limits)
        ensures
            r == (Limits { time: Some(self.time_limit), memory: Some(self.memory_limit) }),
    {
        Limits { time: Some(self.time_limit), memory: Some(self.memory_limit) }
    }
}

/// Starts the self-check of a challenge: the evaluator is to list its examples.
pub fn check_challenge(check: CheckChallenge) -> (r: (ListingExamples, EvaluatorRequest))
    ensures
        r.0 == (ListingExamples { check }),
        r.1 == (EvaluatorRequest {
            environment: check.judge.evaluator.environment,
            source: check.judge.evaluator.code,
            operation: Operation::ListExamples,
            limits: Limits { time: None, memory: None },
        }),
{
    let request = check.judge.examples();
    (ListingExamples { check }, request)
}

/// The step that tries `seeds`, the first of them now.
fn first_of(check: CheckChallenge, seeds: Vec<String>) -> (r: CheckStep)
    ensures
        tries(check, seeds@, r),
{
    let mut seeds = seeds;
    if seeds.len() == 0 {
        return CheckStep::Done(Ok(Ok(())));
    }
    let current = seeds.remove(0);
    let (pending, request) = check.judge.get_example_checked(
        current.clone(),
        check.solution(),
        check.limits(),
    );
    CheckStep::Next(CheckingExamples { check, current, remaining: seeds }, pending, request)
}

impl ListingExamples {
    /// Goes on with the evaluator's reply on its examples, the random seeds
    /// being the texts of `random_ids`.
    ///
    /// A reply that is no list, and a list that is empty, end the check
    /// with no seed asked for. Else the seeds are the examples, the static
    /// seeds and the random seeds, and the first example is asked for.
    pub fn listed_with(self, reply: Result<Vec<String>, JudgeError>, random_ids: &Vec<u128>) -> (r:
        CheckStep)
        ensures
            match listing_outcome(reply) {
                Some(outcome) => r == CheckStep::Done(outcome),
                None => {
                    &&& r matches CheckStep::Next(state, pending, request)
                    &&& state.check == self.check
                    &&& state.current == reply->Ok_0@[0]
                    &&& (pending, request) == asks(self.check, state.current)
                    &&& texts(seq![state.current] + state.remaining@) == plan_text(
                        reply->Ok_0@,
                        self.check.challenge_id,
                        self.check.static_tests,
                        random_ids@,
                    )
                },
            },
    {
        match reply {
            Err(JudgeError::EvaluatorFailed(record)) => CheckStep::Done(
                Ok(Err(CheckError::EvaluatorFailed(record))),
            ),
            Err(JudgeError::InvalidOutput(record)) => CheckStep::Done(
                Ok(Err(CheckError::InvalidOutput(record))),
            ),
            Err(e) => CheckStep::Done(Err(e)),
            Ok(examples) => {
                if examples.len() == 0 {
                    return CheckStep::Done(Ok(Err(CheckError::NoExamples)));
                }
                let challenge_id = self.check.challenge_id;
                let static_tests = self.check.static_tests;
                let plan = seed_plan(examples, challenge_id, static_tests, random_ids);
                let ghost seeds = plan@;
                let step = first_of(self.check, plan);
                proof {
                    assert(texts(seeds).len() == seeds.len());
                }
                step
            },
        }
    }

    /// Goes on with the evaluator's reply on its examples. The random
    /// seeds are drawn here, as many as the check asks for.
    pub fn listed(self, reply: Result<Vec<String>, JudgeError>) -> (r: CheckStep)
        ensures
            match listing_outcome(reply) {
                Some(outcome) => r == CheckStep::Done(outcome),
                None => exists|random_ids: Seq<u128>|
                    {
                        &&& random_ids.len() == self.check.random_tests
                        &&& forall|i: int|
                            0 <= i < random_ids.len() ==> is_random_id(#[trigger] random_ids[i])
                        &&& r matches CheckStep::Next(state, pending, request)
                        &&& state.check == self.check
                        &&& state.current == reply->Ok_0@[0]
                        &&& (pending, request) == asks(self.check, state.current)
                        &&& texts(seq![state.current] + state.remaining@) == plan_text(
                            reply->Ok_0@,
                            self.check.challenge_id,
                            self.check.static_tests,
                            random_ids,
                        )
                    },
            },
    {
        let ids = draw_ids(self.check.random_tests);
        self.listed_with(reply, &ids)
    }
}

impl CheckingExamples {
    /// Goes on with the judge's reply on the example of the current seed.
    ///
    /// Any reply but an example ends the check, and no further seed is
    /// asked for. An example lets the next seed be asked for; after the
    /// last seed the check has passed.
    pub fn checked(self, reply: ExampleReply) -> (r: CheckStep)
        ensures
            match example_outcome(self.current, reply) {
                Some(outcome) => r == CheckStep::Done(outcome),
                None => tries(self.check, self.remaining@, r),
            },
    {
        match reply {
            Err(JudgeError::EnvironmentNotFound) => CheckStep::Done(
                Ok(Err(CheckError::EnvironmentNotFound)),
            ),
            Err(JudgeError::EvaluatorFailed(record)) => CheckStep::Done(
                Ok(Err(CheckError::EvaluatorFailed(record))),
            ),
            Err(JudgeError::InvalidOutput(record)) => CheckStep::Done(
                Ok(Err(CheckError::InvalidOutput(record))),
            ),
            Err(JudgeError::Sandbox) => CheckStep::Done(Err(JudgeError::Sandbox)),
            Ok(Err(failure)) => CheckStep::Done(
                Ok(
                    Err(
                        CheckError::TestcaseFailed(
                            CheckTestcaseError { seed: self.current, result: failure.result },
                        ),
                    ),
                ),
            ),
            Ok(Ok(_)) => first_of(self.check, self.remaining),
        }
    }
}

/// Tries `seeds` on the judge's replies as they are given in `replies`,
/// for as long as a seed is left and a reply is left. Returns the seeds that
/// were asked for and, if the check ended, how.
pub fn replay(check: CheckChallenge, seeds: Vec<String>, replies: Vec<ExampleReply>) -> (r: (
    Vec<String>,
    Option<CheckOutcome>,
))
    ensures
        (r.0@, r.1) == run(seeds@, replies@),
{
    let ghost plan = seeds@;
    let ghost all = replies@;
    let ghost given = check;
    let mut queue = replies;
    let mut asked: Vec<String> = Vec::new();
    let ghost mut left = plan;
    let mut step = first_of(check, seeds);
    loop
        invariant
            plan == seeds@,
            all == replies@,
            tries(given, left, step),
            run(plan, all) == (asked@ + run(left, queue@).0, run(left, queue@).1),
        decreases left.len(),
    {
        match step {
            CheckStep::Done(outcome) => {
                return (asked, Some(outcome));
            },
            CheckStep::Next(state, _pending, _request) => {
                let ghost before = queue@;
                asked.push(state.current.clone());
                if queue.len() == 0 {
                    return (asked, None);
                }
                let reply = queue.remove(0);
                let next = state.checked(reply);
                assert(run(left.drop_first(), before.drop_first()) == run(
                    left.drop_first(),
                    queue@,
                ));
                match next {
                    CheckStep::Done(outcome) => {
                        return (asked, Some(outcome));
                    },
                    CheckStep::Next(s, p, q) => {
                        proof {
                            left = left.drop_first();
                        }
                        step = CheckStep::Next(s, p, q);
                    },
                }
            },
        }
    }
}

/// A self-check asks for the seeds of its plan in order and stops at the
/// first reply that is no example: it has then asked for the seeds up to
/// that one and for none after it, and it ends as that reply says.
pub proof fn lemma_stops_at_first_failure(plan: Seq<String>, replies: Seq<ExampleReply>, k: int)
    requires
        0 <= k < plan.len(),
        k < replies.len(),
        forall|i: int| 0 <= i < k ==> example_outcome(plan[i], #[trigger] replies[i]) is None,
        example_outcome(plan[k], replies[k]) is Some,
    ensures
        run(plan, replies) == (plan.take(k + 1), example_outcome(plan[k], replies[k])),
    decreases k,
{
    if k > 0 {
        lemma_stops_at_first_failure(plan.drop_first(), replies.drop_first(), k - 1);
    }
}

/// A self-check whose every seed gives an example asks for all the seeds
/// of its plan, in order, and passes.
pub proof fn lemma_passes_when_all_pass(plan: Seq<String>, replies: Seq<ExampleReply>)
    requires
        plan.len() <= replies.len(),
        forall|i: int|
            0 <= i < plan.len() ==> example_outcome(plan[i], #[trigger] replies[i]) is None,
    ensures
        run(plan, replies) == (plan, Some(Ok::<Result<(), CheckError>, JudgeError>(Ok(())))),
    decreases plan.len(),
{
    if plan.len() > 0 {
        lemma_passes_when_all_pass(plan.drop_first(), replies.drop_first());
    }
}

/// The examples and the static seeds of a plan are the same on every run,
/// whatever random seeds are drawn. A static seed depends on its index and
/// on the challenge alone: it stays what it is when more or fewer static
/// seeds are asked for.
pub proof fn lemma_fixed_seeds_are_reproduced(
    examples: Seq<String>,
    challenge_id: u128,
    static_tests: u8,
    other_static_tests: u8,
    random_ids: Seq<u128>,
    other_random_ids: Seq<u128>,
    i: int,
)
    requires
        0 <= i < examples.len() + static_tests,
        i < examples.len() + other_static_tests,
    ensures
        plan_text(examples, challenge_id, static_tests, random_ids)[i] == plan_text(
            examples,
            challenge_id,
            other_static_tests,
            other_random_ids,
        )[i],
        i < examples.len() ==> plan_text(examples, challenge_id, static_tests, random_ids)[i]
            == examples[i]@,
        i >= examples.len() ==> plan_text(examples, challenge_id, static_tests, random_ids)[i]
            == static_seed_text((i - examples.len()) as u8, challenge_id),
{
}

} // verus!
