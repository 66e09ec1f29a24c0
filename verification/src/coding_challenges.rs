//! What the coding-challenge endpoints decide: how the examples of a
//! challenge are collected for its users, and how a user's program is tried
//! on one example.
//!
//! Both go through the judge, one question at a time: each function here
//! takes the judge's last answer and says what is asked next, or what the
//! user is told.

use crate::judge::{
    CheckResult, CheckTestcaseError, EvaluatorRequest, Example, Judge, JudgeError, Limits,
    Operation, PendingInput, PendingRun, RunResult, Submission, SubmissionRequest,
};
use vstd::prelude::*;

verus! {

/// A coding challenge as it is stored, as far as the judge needs it.
#[derive(Debug, Clone, PartialEq, Eq)]
pub struct StoredChallenge {
    pub subtask_id: u128,
    pub evaluator: String,
    pub evaluator_environment: String,
    pub solution_environment: String,
    pub solution_code: String,
    /// Milliseconds a solution may run.
    pub time_limit: u64,
    /// Megabytes of memory a solution may use.
    pub memory_limit: u64,
}

/// What a user is told who asked for the examples of a challenge.
#[derive(Debug, PartialEq, Eq)]
pub enum GetExamples {
    Examples(Vec<Example>),
    SubtaskNotFound,
    /// The evaluator could not list its examples.
    EvaluatorFailed,
    /// The reference solution did not pass one of the examples.
    ExampleGenerationFailed,
    /// The judge failed otherwise.
    Failed(JudgeError),
}

/// The collection of a challenge's examples, waiting for the example of
/// `current`; the seeds in `remaining` come after it, and the examples in
/// `collected` were made before.
#[derive(Debug, PartialEq, Eq)]
pub struct CollectingExamples {
    pub judge: Judge,
    pub reference: Submission,
    pub collected: Vec<Example>,
    pub current: String,
    pub remaining: Vec<String>,
}

/// Where the collection of examples stands.
#[derive(Debug, PartialEq, Eq)]
pub enum ExamplesStep {
    /// The example of the next seed is to be made.
    Next(CollectingExamples, PendingInput, EvaluatorRequest),
    /// The user is answered.
    Done(GetExamples),
}

/// What a user is told who tried a program on an example.
#[derive(Debug, PartialEq, Eq)]
pub enum TestExample {
    Graded(CheckResult<RunResult>),
    ExampleNotFound,
    EnvironmentNotFound,
    /// The evaluator failed or printed what is no answer.
    EvaluatorFailed,
    /// The judge failed otherwise.
    Failed(JudgeError),
}

/// Where the trial of a program on an example stands.
#[derive(Debug, PartialEq, Eq)]
pub enum TestStep<T> {
    /// The judge is to be asked this.
    Ask(T),
    /// The user is answered.
    Done(TestExample),
}

/// The trial of a user's program on the example with seed `example_id`.
#[derive(Debug, Clone, PartialEq, Eq)]
pub struct ExampleTest {
    pub judge: Judge,
    pub example_id: String,
    pub submission: Submission,
    pub limits: Limits,
}

/// What the user is told where the evaluator's answer is an error: a failed
/// or invalid evaluator is named as such, any other error is the judge's.
pub open spec fn evaluator_fault(e: JudgeError) -> TestExample {
    match e {
        JudgeError::EvaluatorFailed(_) => TestExample::EvaluatorFailed,
        JudgeError::InvalidOutput(_) => TestExample::EvaluatorFailed,
        other => TestExample::Failed(other),
    }
}

/// What the user is told of a program that was graded.
pub open spec fn graded_answer(reply: Result<CheckResult<RunResult>, JudgeError>) -> TestExample {
    match reply {
        Ok(result) => TestExample::Graded(result),
        Err(JudgeError::EnvironmentNotFound) => TestExample::EnvironmentNotFound,
        Err(e) => evaluator_fault(e),
    }
}

/// What is asked of the judge for one example that is shown to users: the
/// example of that seed, with the reference solution run under the
/// sandbox's own limits.
pub open spec fn asks_example(judge: Judge, reference: Submission, seed: String) -> (
    PendingInput,
    EvaluatorRequest,
) {
    (
        PendingInput { seed, reference, limits: Limits { time: None, memory: None } },
        EvaluatorRequest {
            environment: judge.evaluator.environment,
            source: judge.evaluator.code,
            operation: Operation::Generate { seed },
            limits: Limits { time: None, memory: None },
        },
    )
}

/// `step` is the state in which `collected` are made and `seeds` are still
/// to be made, the first of them now; with no seed left, the user gets the
/// examples.
pub open spec fn collects(
    judge: Judge,
    reference: Submission,
    collected: Seq<Example>,
    seeds: Seq<String>,
    step: ExamplesStep,
) -> bool {
    if seeds.len() == 0 {
        step matches ExamplesStep::Done(GetExamples::Examples(examples)) && examples@ == collected
    } else {
        &&& step matches ExamplesStep::Next(state, pending, request)
        &&& state.judge == judge
        &&& state.reference == reference
        &&& state.collected@ == collected
        &&& state.current == seeds[0]
        &&& state.remaining@ == seeds.drop_first()
        &&& (pending, request) == asks_example(judge, reference, seeds[0])
    }
}

impl StoredChallenge {
    /// The judge of this challenge.
    pub fn judge(&self) -> (r: Judge)
        ensures
            r.challenge_id == self.subtask_id,
            r.evaluator.environment == self.evaluator_environment,
            r.evaluator.code == self.evaluator,
    {
        Judge {
            challenge_id: self.subtask_id,
            evaluator: crate::judge::EvaluatorSource {
                environment: self.evaluator_environment.clone(),
                code: self.evaluator.clone(),
            },
        }
    }

    /// The challenge's reference solution.
    pub fn solution(&self) -> (r: Submission)
        ensures
            r == (Submission {
                environment: self.solution_environment,
                code: self.solution_code,
            }),
    {
        Submission {
            environment: self.solution_environment.clone(),
            code: self.solution_code.clone(),
        }
    }

    /// The limits that a user's program runs under.
    pub fn limits(&self) -> (r: Limits)
        ensures
            r == (Limits { time: Some(self.time_limit), memory: Some(self.memory_limit) }),
    {
        Limits { time: Some(self.time_limit), memory: Some(self.memory_limit) }
    }
}

/// The step that makes the examples of `seeds`, the first of them now.
fn collect_from(judge: Judge, reference: Submission, collected: Vec<Example>, seeds: Vec<String>) -> (r:
    ExamplesStep)
    ensures
        collects(judge, reference, collected@, seeds@, r),
{
    let mut seeds = seeds;
    if seeds.len() == 0 {
        return ExamplesStep::Done(GetExamples::Examples(collected));
    }
    let current = seeds.remove(0);
    let solution = Submission {
        environment: reference.environment.clone(),
        code: reference.code.clone(),
    };
    let (pending, request) = judge.get_example_checked(current.clone(), solution, Limits::none());
    ExamplesStep::Next(
        CollectingExamples { judge, reference, collected, current, remaining: seeds },
        pending,
        request,
    )
}

/// Starts the collection of the examples of a challenge: the evaluator is
/// to list them. A challenge that does not exist is told as such.
pub fn list_examples(challenge: Option<&StoredChallenge>) -> (r: Result<
    (Judge, Submission, EvaluatorRequest),
    GetExamples,
>)
    ensures
        match challenge {
            None => r == Err::<(Judge, Submission, EvaluatorRequest), GetExamples>(
                GetExamples::SubtaskNotFound,
            ),
            Some(stored) => {
                &&& r matches Ok((judge, reference, request))
                &&& judge.challenge_id == stored.subtask_id
                &&& judge.evaluator.environment == stored.evaluator_environment
                &&& judge.evaluator.code == stored.evaluator
                &&& reference == (Submission {
                    environment: stored.solution_environment,
                    code: stored.solution_code,
                })
                &&& request == (EvaluatorRequest {
                    environment: stored.evaluator_environment,
                    source: stored.evaluator,
                    operation: Operation::ListExamples,
                    limits: Limits { time: None, memory: None },
                })
            },
        },
{
    match challenge {
        None => Err(GetExamples::SubtaskNotFound),
        Some(stored) => {
            let judge = stored.judge();
            let request = judge.examples();
            Ok((judge, stored.solution(), request))
        },
    }
}

/// Goes on with the evaluator's list of examples, for a user who asked for
/// the examples of a challenge.
///
/// A failed or invalid evaluator is told as such. With a list, the
/// examples are made in its order; an empty list gives no examples.
pub fn get_examples(judge: Judge, reference: Submission, reply: Result<Vec<String>, JudgeError>) -> (r:
    ExamplesStep)
    ensures
        match reply {
            Err(JudgeError::EvaluatorFailed(_)) => r == ExamplesStep::Done(
                GetExamples::EvaluatorFailed,
            ),
            Err(JudgeError::InvalidOutput(_)) => r == ExamplesStep::Done(
                GetExamples::EvaluatorFailed,
            ),
            Err(e) => r == ExamplesStep::Done(GetExamples::Failed(e)),
            Ok(seeds) => collects(judge, reference, Seq::empty(), seeds@, r),
        },
{
    match reply {
        Err(JudgeError::EvaluatorFailed(_)) => ExamplesStep::Done(GetExamples::EvaluatorFailed),
        Err(JudgeError::InvalidOutput(_)) => ExamplesStep::Done(GetExamples::EvaluatorFailed),
        Err(e) => ExamplesStep::Done(GetExamples::Failed(e)),
        Ok(seeds) => collect_from(judge, reference, Vec::new(), seeds),
    }
}

impl CollectingExamples {
    /// Goes on with the judge's reply on the example of the current seed.
    ///
    /// An example is added to those collected, and the next seed is asked
    /// for. A test that the reference solution failed, and an error of the
    /// judge, end the collection with no example given.
    pub fn made(self, reply: Result<Result<Example, CheckTestcaseError>, JudgeError>) -> (r:
        ExamplesStep)
        ensures
            match reply {
                Err(e) => r == ExamplesStep::Done(GetExamples::Failed(e)),
                Ok(Err(_)) => r == ExamplesStep::Done(GetExamples::ExampleGenerationFailed),
                Ok(Ok(example)) => collects(
                    self.judge,
                    self.reference,
                    self.collected@.push(example),
                    self.remaining@,
                    r,
                ),
            },
    {
        match reply {
            Err(e) => ExamplesStep::Done(GetExamples::Failed(e)),
            Ok(Err(_)) => ExamplesStep::Done(GetExamples::ExampleGenerationFailed),
            Ok(Ok(example)) => {
                let mut collected = self.collected;
                collected.push(example);
                collect_from(self.judge, self.reference, collected, self.remaining)
            },
        }
    }
}

/// Whether a list of seeds holds this seed.
pub fn has_seed(seeds: &Vec<String>, seed: &String) -> (r: bool)
    ensures
        r == (exists|i: int| 0 <= i < seeds@.len() && #[trigger] seeds@[i]@ == seed@),
{
    let mut i: usize = 0;
    while i < seeds.len()
        invariant
            i <= seeds@.len(),
            forall|k: int| 0 <= k < i ==> #[trigger] seeds@[k]@ != seed@,
        decreases seeds@.len() - i,
    {
        if seeds[i] == *seed {
            return true;
        }
        i += 1;
    }
    false
}

impl ExampleTest {
    /// Goes on with the evaluator's list of examples: the input of the
    /// example is to be generated, if the list holds its seed.
    pub fn listed(&self, reply: Result<Vec<String>, JudgeError>) -> (r: TestStep<EvaluatorRequest>)
        ensures
            match reply {
                Err(e) => r == TestStep::<EvaluatorRequest>::Done(evaluator_fault(e)),
                Ok(seeds) => if exists|i: int|
                    0 <= i < seeds@.len() && #[trigger] seeds@[i]@ == self.example_id@ {
                    r == TestStep::Ask(
                        EvaluatorRequest {
                            environment: self.judge.evaluator.environment,
                            source: self.judge.evaluator.code,
                            operation: Operation::Generate { seed: self.example_id },
                            limits: Limits { time: None, memory: None },
                        },
                    )
                } else {
                    r == TestStep::<EvaluatorRequest>::Done(TestExample::ExampleNotFound)
                },
            },
    {
        match reply {
            Err(JudgeError::EvaluatorFailed(_)) => TestStep::Done(TestExample::EvaluatorFailed),
            Err(JudgeError::InvalidOutput(_)) => TestStep::Done(TestExample::EvaluatorFailed),
            Err(e) => TestStep::Done(TestExample::Failed(e)),
            Ok(seeds) => {
                if !has_seed(&seeds, &self.example_id) {
                    TestStep::Done(TestExample::ExampleNotFound)
                } else {
                    TestStep::Ask(self.judge.generate(&self.example_id, Limits::none()))
                }
            },
        }
    }

    /// Goes on with the input of the example: the user's program is to be
    /// run on it, under the limits of the trial.
    pub fn generated(&self, reply: Result<String, JudgeError>) -> (r: TestStep<
        (PendingRun, SubmissionRequest),
    >)
        ensures
            match reply {
                Err(e) => r == TestStep::<(PendingRun, SubmissionRequest)>::Done(
                    evaluator_fault(e),
                ),
                Ok(input) => r == TestStep::Ask(
                    (
                        PendingRun { seed: self.example_id, input },
                        SubmissionRequest {
                            environment: self.submission.environment,
                            source: self.submission.code,
                            stdin: input,
                            limits: self.limits,
                        },
                    ),
                ),
            },
    {
        match reply {
            Err(JudgeError::EvaluatorFailed(_)) => TestStep::Done(TestExample::EvaluatorFailed),
            Err(JudgeError::InvalidOutput(_)) => TestStep::Done(TestExample::EvaluatorFailed),
            Err(e) => TestStep::Done(TestExample::Failed(e)),
            Ok(input) => TestStep::Ask(
                self.judge.run_solution(
                    self.example_id.clone(),
                    input,
                    &self.submission,
                    self.limits,
                ),
            ),
        }
    }

    /// What the user is told once the program was graded.
    pub fn graded(&self, reply: Result<CheckResult<RunResult>, JudgeError>) -> (r: TestExample)
        ensures
            r == graded_answer(reply),
    {
        match reply {
            Ok(result) => TestExample::Graded(result),
            Err(JudgeError::EnvironmentNotFound) => TestExample::EnvironmentNotFound,
            Err(JudgeError::EvaluatorFailed(_)) => TestExample::EvaluatorFailed,
            Err(JudgeError::InvalidOutput(_)) => TestExample::EvaluatorFailed,
            Err(e) => TestExample::Failed(e),
        }
    }
}

/// Starts the trial of a user's program on an example of a challenge: the
/// evaluator is to list its examples. A challenge that does not exist has
/// no examples.
pub fn test_example(challenge: Option<&StoredChallenge>, example_id: String, submission: Submission) -> (r:
    Result<(ExampleTest, EvaluatorRequest), TestExample>)
    ensures
        match challenge {
            None => r == Err::<(ExampleTest, EvaluatorRequest), TestExample>(
                TestExample::ExampleNotFound,
            ),
            Some(stored) => {
                &&& r matches Ok((test, request))
                &&& test.judge.challenge_id == stored.subtask_id
                &&& test.judge.evaluator.environment == stored.evaluator_environment
                &&& test.judge.evaluator.code == stored.evaluator
                &&& test.example_id == example_id
                &&& test.submission == submission
                &&& test.limits == (Limits {
                    time: Some(stored.time_limit),
                    memory: Some(stored.memory_limit),
                })
                &&& request == (EvaluatorRequest {
                    environment: stored.evaluator_environment,
                    source: stored.evaluator,
                    operation: Operation::ListExamples,
                    limits: Limits { time: None, memory: None },
                })
            },
        },
{
    match challenge {
        None => Err(TestExample::ExampleNotFound),
        Some(stored) => {
            let judge = stored.judge();
            let request = judge.examples();
            Ok((ExampleTest { judge, example_id, submission, limits: stored.limits() }, request))
        },
    }
}

} // verus!
