//! The judge: the protocol between the grading service and the sandbox that
//! runs a challenge's evaluator and the submitted programs.
//!
//! Nothing here talks to the sandbox. Each operation is cut at the points
//! where the sandbox has to be asked: a function builds the request, the
//! caller sends it, and the next function decides on the reply.

use vstd::prelude::*;

verus! {

/// The program that generates and checks the tests of one challenge,
/// with the sandbox environment it runs in.
#[derive(Debug, Clone, PartialEq, Eq)]
pub struct EvaluatorSource {
    pub environment: String,
    pub code: String,
}

/// A program to grade: a user's attempt or the challenge's reference solution.
#[derive(Debug, Clone, PartialEq, Eq)]
pub struct Submission {
    pub environment: String,
    pub code: String,
}

/// Resource limits of one sandbox run. An absent limit leaves the sandbox's default.
#[derive(Debug, Clone, Copy, PartialEq, Eq, Structural)]
pub struct Limits {
    /// Milliseconds the program may run.
    pub time: Option<u64>,
    /// Megabytes of memory the program may use.
    pub memory: Option<u64>,
}

/// What the sandbox recorded of one process.
#[derive(Debug, Clone, PartialEq, Eq)]
pub struct RunResult {
    pub status: i32,
    pub stdout: String,
    pub stderr: String,
    /// Milliseconds the process ran.
    pub time: u64,
    /// Kilobytes of memory the process used.
    pub memory: u64,
}

/// What the sandbox recorded of a program that was built and run.
#[derive(Debug, Clone, PartialEq, Eq)]
pub struct RunRecord {
    /// The build step, where the environment has one.
    pub build: Option<RunResult>,
    pub run: RunResult,
}

/// The sandbox's answer to a request.
#[derive(Debug, Clone, PartialEq, Eq)]
pub enum SandboxReply {
    /// The program was built and run.
    Ran(RunRecord),
    /// The program could not be built.
    BuildFailed(RunResult),
    /// The sandbox does not know the environment that was asked for.
    EnvironmentNotFound,
    /// The sandbox could not be reached or refused the request.
    Failed,
}

/// One of the three things an evaluator can be asked to do.
#[derive(Debug, Clone, PartialEq, Eq)]
pub enum Operation {
    /// List the seeds of the examples.
    ListExamples,
    /// Generate the input of the test with this seed.
    Generate { seed: String },
    /// Judge an output that a solution gave for the input of this seed.
    Check { seed: String, input: String, output: String },
}

/// A request to run the evaluator.
#[derive(Debug, Clone, PartialEq, Eq)]
pub struct EvaluatorRequest {
    pub environment: String,
    pub source: String,
    pub operation: Operation,
    pub limits: Limits,
}

/// A request to run a submission on an input.
#[derive(Debug, Clone, PartialEq, Eq)]
pub struct SubmissionRequest {
    pub environment: String,
    pub source: String,
    pub stdin: String,
    pub limits: Limits,
}

/// Why an operation of the judge did not complete.
#[derive(Debug, Clone, PartialEq, Eq)]
pub enum JudgeError {
    /// The evaluator ended with a status other than zero.
    EvaluatorFailed(RunRecord),
    /// The evaluator ended well, but what it printed is not an answer.
    InvalidOutput(RunRecord),
    /// The sandbox does not know the environment.
    EnvironmentNotFound,
    /// The sandbox could not be reached or refused the request.
    Sandbox,
}

/// How a graded attempt is classified.
#[derive(Debug, Clone, Copy, PartialEq, Eq, Structural)]
pub enum Verdict {
    /// The evaluator accepted the output.
    Correct,
    /// The evaluator rejected the output.
    WrongAnswer,
    /// The submission could not be built.
    CompilationError,
    /// The submission ended with a status other than zero.
    RuntimeError,
}

/// A verdict with the sandbox record it was reached on.
#[derive(Debug, Clone, PartialEq, Eq)]
pub struct CheckResult<T> {
    pub verdict: Verdict,
    pub raw: T,
}

/// A test as it is shown to users: the input, and the output that the
/// reference solution gives and the evaluator accepts.
#[derive(Debug, Clone, PartialEq, Eq)]
pub struct Example {
    /// The seed of the test.
    pub id: String,
    pub challenge_id: u128,
    pub input: String,
    pub output: String,
    pub explanation: Option<String>,
}

/// The reference solution did not pass the test with this seed.
#[derive(Debug, Clone, PartialEq, Eq)]
pub struct CheckTestcaseError {
    pub seed: String,
    pub result: CheckResult<RunResult>,
}

/// A judge bound to the evaluator of one challenge.
#[derive(Debug, Clone, PartialEq, Eq)]
pub struct Judge {
    pub challenge_id: u128,
    pub evaluator: EvaluatorSource,
}

/// A grading that waits for the sandbox to run the submission.
#[derive(Debug, Clone, PartialEq, Eq)]
pub struct PendingRun {
    pub seed: String,
    pub input: String,
}

/// A grading that waits for the evaluator's verdict on this run.
#[derive(Debug, Clone, PartialEq, Eq)]
pub struct PendingCheck {
    pub run: RunResult,
}

/// Where a grading stands once the sandbox has answered.
#[derive(Debug, PartialEq, Eq)]
pub enum RunStep {
    /// The submission ran: the evaluator is to check its output.
    Check(PendingCheck, EvaluatorRequest),
    /// The grading is over.
    Done(Result<CheckResult<RunResult>, JudgeError>),
}

/// An example that waits for its input to be generated.
#[derive(Debug, Clone, PartialEq, Eq)]
pub struct PendingInput {
    pub seed: String,
    pub reference: Submission,
    pub limits: Limits,
}

/// An example that waits for the reference solution to be graded on its input.
#[derive(Debug, Clone, PartialEq, Eq)]
pub struct PendingExample {
    pub seed: String,
    pub input: String,
}

/// Where an example stands once its input was asked for.
#[derive(Debug, PartialEq, Eq)]
pub enum InputStep {
    /// The input is there: the reference solution is to be graded on it.
    Grade(PendingExample, PendingRun, SubmissionRequest),
    /// The input could not be generated.
    Failed(JudgeError),
}

/// What the evaluator's reply means, given what its output was decoded to.
///
/// A run that ended with a status other than zero is a failure of the
/// evaluator, whatever it printed. A run that ended well gives what its
/// output decodes to, and is invalid where it decodes to nothing.
pub open spec fn evaluator_result<T>(reply: SandboxReply, decoded: Option<T>) -> Result<
    T,
    JudgeError,
> {
    match reply {
        SandboxReply::Ran(record) => if record.run.status != 0 {
            Err(JudgeError::EvaluatorFailed(record))
        } else {
            match decoded {
                Some(value) => Ok(value),
                None => Err(JudgeError::InvalidOutput(record)),
            }
        },
        SandboxReply::EnvironmentNotFound => Err(JudgeError::EnvironmentNotFound),
        SandboxReply::BuildFailed(_) => Err(JudgeError::Sandbox),
        SandboxReply::Failed => Err(JudgeError::Sandbox),
    }
}

/// Where a grading stands after the sandbox's reply on the submission.
///
/// The evaluator is asked only about a submission that ran and ended with
/// status zero; it is then handed the seed, the input and the submission's
/// whole output.
pub open spec fn run_step(judge: Judge, pending: PendingRun, reply: SandboxReply) -> RunStep {
    match reply {
        SandboxReply::Ran(record) => if record.run.status != 0 {
            RunStep::Done(Ok(CheckResult { verdict: Verdict::RuntimeError, raw: record.run }))
        } else {
            RunStep::Check(
                PendingCheck { run: record.run },
                EvaluatorRequest {
                    environment: judge.evaluator.environment,
                    source: judge.evaluator.code,
                    operation: Operation::Check {
                        seed: pending.seed,
                        input: pending.input,
                        output: record.run.stdout,
                    },
                    limits: Limits { time: None, memory: None },
                },
            )
        },
        SandboxReply::BuildFailed(build) => RunStep::Done(
            Ok(CheckResult { verdict: Verdict::CompilationError, raw: build }),
        ),
        SandboxReply::EnvironmentNotFound => RunStep::Done(Err(JudgeError::EnvironmentNotFound)),
        SandboxReply::Failed => RunStep::Done(Err(JudgeError::Sandbox)),
    }
}

/// The result of a grading, given what the evaluator said of the run.
pub open spec fn check_step(pending: PendingCheck, verdict: Result<Verdict, JudgeError>) -> Result<
    CheckResult<RunResult>,
    JudgeError,
> {
    match verdict {
        Ok(v) => Ok(CheckResult { verdict: v, raw: pending.run }),
        Err(e) => Err(e),
    }
}

/// Where an example stands once its input was asked for: with the input
/// there, the reference solution is run on it under the limits given.
pub open spec fn input_step(pending: PendingInput, input: Result<String, JudgeError>) -> InputStep {
    match input {
        Err(e) => InputStep::Failed(e),
        Ok(text) => InputStep::Grade(
            PendingExample { seed: pending.seed, input: text },
            PendingRun { seed: pending.seed, input: text },
            SubmissionRequest {
                environment: pending.reference.environment,
                source: pending.reference.code,
                stdin: text,
                limits: pending.limits,
            },
        ),
    }
}

/// The example that a graded reference run gives, or the failed test.
pub open spec fn example_step(
    judge: Judge,
    pending: PendingExample,
    graded: Result<CheckResult<RunResult>, JudgeError>,
) -> Result<Result<Example, CheckTestcaseError>, JudgeError> {
    match graded {
        Err(e) => Err(e),
        Ok(result) => if result.verdict == Verdict::Correct {
            Ok(
                Ok(
                    Example {
                        id: pending.seed,
                        challenge_id: judge.challenge_id,
                        input: pending.input,
                        output: result.raw.stdout,
                        explanation: None,
                    },
                ),
            )
        } else {
            Ok(Err(CheckTestcaseError { seed: pending.seed, result }))
        },
    }
}

/// The least number of whole seconds that is no less than a time in
/// milliseconds.
pub open spec fn seconds_covering(milliseconds: u64) -> u64 {
    if milliseconds % 1000 == 0 {
        milliseconds / 1000
    } else {
        (milliseconds / 1000 + 1) as u64
    }
}

impl Limits {
    /// The time limit in whole seconds, for a sandbox that counts in
    /// seconds: the least number of seconds that leaves the program all of
    /// its milliseconds.
    pub fn time_in_seconds(&self) -> (r: Option<u64>)
        ensures
            r == (match self.time {
                Some(milliseconds) => Some(seconds_covering(milliseconds)),
                None => None,
            }),
    {
        match self.time {
            Some(milliseconds) => {
                if milliseconds % 1000 == 0 {
                    Some(milliseconds / 1000)
                } else {
                    Some(milliseconds / 1000 + 1)
                }
            },
            None => None,
        }
    }

    /// No limit of the caller's: the sandbox's defaults apply.
    pub fn none() -> (r: Limits)
        ensures
            r == (Limits { time: None, memory: None }),
    {
        Limits { time: None, memory: None }
    }

    /// The limits to run under: each limit that was supplied, and the
    /// challenge's own where none was.
    pub fn or(self, defaults: Limits) -> (r: Limits)
        ensures
            r.time == (if self.time is Some { self.time } else { defaults.time }),
            r.memory == (if self.memory is Some { self.memory } else { defaults.memory }),
    {
        Limits {
            time: if self.time.is_some() { self.time } else { defaults.time },
            memory: if self.memory.is_some() { self.memory } else { defaults.memory },
        }
    }
}

impl Judge {
    /// The request that has the evaluator do `operation` under `limits`.
    ///
    /// It is made of the evaluator's environment and text, of the operation
    /// and of the limits, and of nothing else: the same operation under the
    /// same limits always gives the same request.
    pub fn request(&self, operation: Operation, limits: Limits) -> (r: EvaluatorRequest)
        ensures
            r == (EvaluatorRequest {
                environment: self.evaluator.environment,
                source: self.evaluator.code,
                operation,
                limits,
            }),
    {
        EvaluatorRequest {
            environment: self.evaluator.environment.clone(),
            source: self.evaluator.code.clone(),
            operation,
            limits,
        }
    }

    /// The request that lists the seeds of the examples.
    pub fn examples(&self) -> (r: EvaluatorRequest)
        ensures
            r == (EvaluatorRequest {
                environment: self.evaluator.environment,
                source: self.evaluator.code,
                operation: Operation::ListExamples,
                limits: Limits { time: None, memory: None },
            }),
    {
        self.request(Operation::ListExamples, Limits::none())
    }

    /// The request that generates the input of the test with this seed.
    pub fn generate(&self, seed: &String, limits: Limits) -> (r: EvaluatorRequest)
        ensures
            r == (EvaluatorRequest {
                environment: self.evaluator.environment,
                source: self.evaluator.code,
                operation: Operation::Generate { seed: *seed },
                limits,
            }),
    {
        self.request(Operation::Generate { seed: seed.clone() }, limits)
    }

    /// Decides on the evaluator's reply. `decoded` is what the output of the
    /// run decodes to, where the reply holds a run whose output is an
    /// answer to the operation that was asked.
    pub fn interpret<T>(reply: SandboxReply, decoded: Option<T>) -> (r: Result<T, JudgeError>)
        ensures
            r == evaluator_result(reply, decoded),
    {
        match reply {
            SandboxReply::Ran(record) => {
                if record.run.status != 0 {
                    Err(JudgeError::EvaluatorFailed(record))
                } else {
                    match decoded {
                        Some(value) => Ok(value),
                        None => Err(JudgeError::InvalidOutput(record)),
                    }
                }
            },
            SandboxReply::EnvironmentNotFound => Err(JudgeError::EnvironmentNotFound),
            SandboxReply::BuildFailed(_) => Err(JudgeError::Sandbox),
            SandboxReply::Failed => Err(JudgeError::Sandbox),
        }
    }

    /// Starts grading `submission` on the input of the test with this seed:
    /// the submission is to be run on the input under the given limits.
    pub fn run_solution(
        &self,
        seed: String,
        input: String,
        submission: &Submission,
        limits: Limits,
    ) -> (r: (PendingRun, SubmissionRequest))
        ensures
            r.0 == (PendingRun { seed, input }),
            r.1 == (SubmissionRequest {
                environment: submission.environment,
                source: submission.code,
                stdin: input,
                limits,
            }),
    {
        let request = SubmissionRequest {
            environment: submission.environment.clone(),
            source: submission.code.clone(),
            stdin: input.clone(),
            limits,
        };
        (PendingRun { seed, input }, request)
    }

    /// Goes on with a grading once the sandbox has answered.
    pub fn submission_ran(&self, pending: PendingRun, reply: SandboxReply) -> (r: RunStep)
        ensures
            r == run_step(*self, pending, reply),
    {
        match reply {
            SandboxReply::Ran(record) => {
                if record.run.status != 0 {
                    RunStep::Done(
                        Ok(CheckResult { verdict: Verdict::RuntimeError, raw: record.run }),
                    )
                } else {
                    let output = record.run.stdout.clone();
                    let request = self.request(
                        Operation::Check { seed: pending.seed, input: pending.input, output },
                        Limits::none(),
                    );
                    RunStep::Check(PendingCheck { run: record.run }, request)
                }
            },
            SandboxReply::BuildFailed(build) => RunStep::Done(
                Ok(CheckResult { verdict: Verdict::CompilationError, raw: build }),
            ),
            SandboxReply::EnvironmentNotFound => RunStep::Done(
                Err(JudgeError::EnvironmentNotFound),
            ),
            SandboxReply::Failed => RunStep::Done(Err(JudgeError::Sandbox)),
        }
    }

    /// Ends a grading with the evaluator's verdict on the run. The verdict
    /// is the evaluator's: the output is compared with nothing here.
    pub fn submission_checked(pending: PendingCheck, verdict: Result<Verdict, JudgeError>) -> (r:
        Result<CheckResult<RunResult>, JudgeError>)
        ensures
            r == check_step(pending, verdict),
    {
        match verdict {
            Ok(v) => Ok(CheckResult { verdict: v, raw: pending.run }),
            Err(e) => Err(e),
        }
    }

    /// Starts making the example of this seed: its input is to be generated.
    /// The reference solution is graded under `limits`.
    pub fn get_example_checked(&self, seed: String, reference: Submission, limits: Limits) -> (r: (
        PendingInput,
        EvaluatorRequest,
    ))
        ensures
            r.0 == (PendingInput { seed, reference, limits }),
            r.1 == (EvaluatorRequest {
                environment: self.evaluator.environment,
                source: self.evaluator.code,
                operation: Operation::Generate { seed },
                limits: Limits { time: None, memory: None },
            }),
    {
        let request = self.generate(&seed, Limits::none());
        (PendingInput { seed, reference, limits }, request)
    }

    /// Goes on with an example once its input was asked for: with the input
    /// there, the reference solution is to be graded on it.
    pub fn example_generated(&self, pending: PendingInput, input: Result<String, JudgeError>) -> (r:
        InputStep)
        ensures
            r == input_step(pending, input),
    {
        match input {
            Err(e) => InputStep::Failed(e),
            Ok(text) => {
                let (run, request) = self.run_solution(
                    pending.seed.clone(),
                    text.clone(),
                    &pending.reference,
                    pending.limits,
                );
                InputStep::Grade(PendingExample { seed: pending.seed, input: text }, run, request)
            },
        }
    }

    /// Ends an example with the graded run of the reference solution. The
    /// example is given only for a run that the evaluator accepted, and its
    /// output is what that run printed.
    pub fn example_graded(
        &self,
        pending: PendingExample,
        graded: Result<CheckResult<RunResult>, JudgeError>,
    ) -> (r: Result<Result<Example, CheckTestcaseError>, JudgeError>)
        ensures
            r == example_step(*self, pending, graded),
    {
        match graded {
            Err(e) => Err(e),
            Ok(result) => {
                if result.verdict == Verdict::Correct {
                    Ok(
                        Ok(
                            Example {
                                id: pending.seed,
                                challenge_id: self.challenge_id,
                                input: pending.input,
                                output: result.raw.stdout,
                                explanation: None,
                            },
                        ),
                    )
                } else {
                    Ok(Err(CheckTestcaseError { seed: pending.seed, result }))
                }
            },
        }
    }
}

/// The evaluator alone decides whether a submission is correct. For a
/// submission that ran and ended with status zero, the evaluator is asked
/// with the seed, the input and all that the submission printed, and its
/// answer is what the grading gives. Nothing is compared with what an
/// example holds: a submission that prints something else than the
/// example shows is correct where the evaluator says so.
pub proof fn lemma_verdict_is_the_evaluators(
    judge: Judge,
    pending: PendingRun,
    record: RunRecord,
    example: Example,
    verdict: Verdict,
)
    requires
        record.run.status == 0,
    ensures
        run_step(judge, pending, SandboxReply::Ran(record)) matches RunStep::Check(check, request)
            && request.operation == (Operation::Check {
            seed: pending.seed,
            input: pending.input,
            output: record.run.stdout,
        }) && check_step(check, Ok(verdict)) == Ok::<CheckResult<RunResult>, JudgeError>(
            CheckResult { verdict, raw: record.run },
        ),
{
}

/// An example is what the reference solution makes of the generated
/// input. With the input generated and the reference solution run on it
/// to the end, the evaluator is asked about all that the run printed; where
/// it accepts, the example holds the seed, that input, and that output.
/// Where it does not, the failure names the seed and holds the verdict and
/// the run.
pub proof fn lemma_example_is_the_accepted_run(
    judge: Judge,
    pending: PendingInput,
    input: String,
    record: RunRecord,
    verdict: Verdict,
)
    requires
        record.run.status == 0,
    ensures
        ({
            &&& input_step(pending, Ok(input)) matches InputStep::Grade(example, run, request)
            &&& request.stdin == input
            &&& run_step(judge, run, SandboxReply::Ran(record)) matches RunStep::Check(check, ask)
            &&& ask.operation == (Operation::Check {
                seed: pending.seed,
                input,
                output: record.run.stdout,
            })
            &&& example_step(judge, example, check_step(check, Ok(verdict))) == (if verdict
                == Verdict::Correct {
                Ok::<Result<Example, CheckTestcaseError>, JudgeError>(
                    Ok(
                        Example {
                            id: pending.seed,
                            challenge_id: judge.challenge_id,
                            input,
                            output: record.run.stdout,
                            explanation: None,
                        },
                    ),
                )
            } else {
                Ok(
                    Err(
                        CheckTestcaseError {
                            seed: pending.seed,
                            result: CheckResult { verdict, raw: record.run },
                        },
                    ),
                )
            })
        }),
{
}

} // verus!
