use challenges::coding_challenges::{
    get_examples, has_seed, list_examples, test_example, CollectingExamples, ExampleTest, ExamplesStep, GetExamples,
    StoredChallenge, TestExample, TestStep,
};
use challenges::judge::{
    CheckResult, CheckTestcaseError, EvaluatorRequest, EvaluatorSource, Example, Judge, JudgeError,
    Limits, Operation, PendingInput, PendingRun, RunRecord, RunResult, Submission, SubmissionRequest,
    Verdict,
};

fn stored() -> StoredChallenge {
    StoredChallenge {
        subtask_id: 11,
        evaluator: "evaluator".into(),
        evaluator_environment: "python".into(),
        solution_environment: "rust".into(),
        solution_code: "solution".into(),
        time_limit: 1000,
        memory_limit: 64,
    }
}

fn judge() -> Judge {
    Judge {
        challenge_id: 11,
        evaluator: EvaluatorSource { environment: "python".into(), code: "evaluator".into() },
    }
}

fn reference() -> Submission {
    Submission { environment: "rust".into(), code: "solution".into() }
}

fn attempt() -> Submission {
    Submission { environment: "c".into(), code: "int main() {}".into() }
}

fn seeds(items: &[&str]) -> Vec<String> {
    items.iter().map(|s| s.to_string()).collect()
}

fn run(status: i32) -> RunResult {
    RunResult { status, stdout: "out".into(), stderr: String::new(), time: 1, memory: 2 }
}

fn record(status: i32) -> RunRecord {
    RunRecord { build: None, run: run(status) }
}

fn example(seed: &str) -> Example {
    Example {
        id: seed.into(),
        challenge_id: 11,
        input: format!("input of {seed}"),
        output: format!("output of {seed}"),
        explanation: None,
    }
}

fn generates(seed: &str) -> EvaluatorRequest {
    EvaluatorRequest {
        environment: "python".into(),
        source: "evaluator".into(),
        operation: Operation::Generate { seed: seed.into() },
        limits: Limits { time: None, memory: None },
    }
}

#[test]
fn a_stored_challenge_gives_its_judge_solution_and_limits() {
    assert_eq!(stored().judge(), judge());
    assert_eq!(stored().solution(), reference());
    assert_eq!(stored().limits(), Limits { time: Some(1000), memory: Some(64) });
}

#[test]
fn get_examples_tells_a_broken_evaluator() {
    assert_eq!(
        get_examples(judge(), reference(), Err(JudgeError::EvaluatorFailed(record(1)))),
        ExamplesStep::Done(GetExamples::EvaluatorFailed)
    );
    assert_eq!(
        get_examples(judge(), reference(), Err(JudgeError::InvalidOutput(record(0)))),
        ExamplesStep::Done(GetExamples::EvaluatorFailed)
    );
    assert_eq!(
        get_examples(judge(), reference(), Err(JudgeError::Sandbox)),
        ExamplesStep::Done(GetExamples::Failed(JudgeError::Sandbox))
    );
    assert_eq!(
        get_examples(judge(), reference(), Err(JudgeError::EnvironmentNotFound)),
        ExamplesStep::Done(GetExamples::Failed(JudgeError::EnvironmentNotFound))
    );
}

#[test]
fn get_examples_of_an_empty_list_gives_no_examples() {
    assert_eq!(
        get_examples(judge(), reference(), Ok(Vec::new())),
        ExamplesStep::Done(GetExamples::Examples(Vec::new()))
    );
}

#[test]
fn get_examples_collects_the_examples_in_order() {
    let step = get_examples(judge(), reference(), Ok(seeds(&["a", "b"])));
    let ExamplesStep::Next(state, pending, request) = step else {
        panic!("the first example is to be made");
    };
    assert_eq!(
        pending,
        PendingInput { seed: "a".into(), reference: reference(), limits: Limits { time: None, memory: None } }
    );
    assert_eq!(request, generates("a"));
    assert_eq!(state.current, "a");
    assert_eq!(state.remaining, seeds(&["b"]));

    let ExamplesStep::Next(state, pending, request) = state.made(Ok(Ok(example("a")))) else {
        panic!("the second example is to be made");
    };
    assert_eq!(pending.seed, "b");
    assert_eq!(request, generates("b"));
    assert_eq!(state.collected, vec![example("a")]);

    assert_eq!(
        state.made(Ok(Ok(example("b")))),
        ExamplesStep::Done(GetExamples::Examples(vec![example("a"), example("b")]))
    );
}

#[test]
fn get_examples_gives_nothing_when_one_example_fails() {
    let state = || CollectingExamples {
        judge: judge(),
        reference: reference(),
        collected: vec![example("a")],
        current: "b".into(),
        remaining: seeds(&["c"]),
    };
    let failure = CheckTestcaseError {
        seed: "b".into(),
        result: CheckResult { verdict: Verdict::WrongAnswer, raw: run(0) },
    };
    assert_eq!(
        state().made(Ok(Err(failure))),
        ExamplesStep::Done(GetExamples::ExampleGenerationFailed)
    );
    assert_eq!(
        state().made(Err(JudgeError::EvaluatorFailed(record(1)))),
        ExamplesStep::Done(GetExamples::Failed(JudgeError::EvaluatorFailed(record(1))))
    );
    assert_eq!(
        state().made(Err(JudgeError::EnvironmentNotFound)),
        ExamplesStep::Done(GetExamples::Failed(JudgeError::EnvironmentNotFound))
    );
}

#[test]
fn has_seed_finds_a_seed() {
    assert!(!has_seed(&Vec::new(), &"a".to_string()));
    assert!(has_seed(&seeds(&["a", "b"]), &"a".to_string()));
    assert!(has_seed(&seeds(&["a", "b"]), &"b".to_string()));
    assert!(!has_seed(&seeds(&["a", "b"]), &"c".to_string()));
    assert!(!has_seed(&seeds(&["a", "b"]), &"".to_string()));
}

#[test]
fn test_example_of_a_missing_challenge_finds_no_example() {
    assert_eq!(test_example(None, "a".into(), attempt()), Err(TestExample::ExampleNotFound));
}

#[test]
fn test_example_starts_by_listing_the_examples() {
    let (test, request) = test_example(Some(&stored()), "a".into(), attempt()).unwrap();
    assert_eq!(
        test,
        ExampleTest {
            judge: judge(),
            example_id: "a".into(),
            submission: attempt(),
            limits: Limits { time: Some(1000), memory: Some(64) },
        }
    );
    assert_eq!(
        request,
        EvaluatorRequest {
            environment: "python".into(),
            source: "evaluator".into(),
            operation: Operation::ListExamples,
            limits: Limits { time: None, memory: None },
        }
    );
}

#[test]
fn test_example_goes_through_the_judge() {
    let (test, _) = test_example(Some(&stored()), "b".into(), attempt()).unwrap();
    assert_eq!(test.listed(Ok(seeds(&["a", "b"]))), TestStep::Ask(generates("b")));
    assert_eq!(
        test.generated(Ok("3\n".to_string())),
        TestStep::Ask((
            PendingRun { seed: "b".into(), input: "3\n".into() },
            SubmissionRequest {
                environment: "c".into(),
                source: "int main() {}".into(),
                stdin: "3\n".into(),
                limits: Limits { time: Some(1000), memory: Some(64) },
            }
        ))
    );
    let result = CheckResult { verdict: Verdict::WrongAnswer, raw: run(0) };
    assert_eq!(test.graded(Ok(result.clone())), TestExample::Graded(result));
}

#[test]
fn test_example_of_an_unknown_seed_finds_no_example() {
    let (test, _) = test_example(Some(&stored()), "c".into(), attempt()).unwrap();
    assert_eq!(test.listed(Ok(seeds(&["a", "b"]))), TestStep::Done(TestExample::ExampleNotFound));
    assert_eq!(test.listed(Ok(Vec::new())), TestStep::Done(TestExample::ExampleNotFound));
}

#[test]
fn test_example_tells_a_broken_evaluator() {
    let (test, _) = test_example(Some(&stored()), "a".into(), attempt()).unwrap();
    for broken in [JudgeError::EvaluatorFailed(record(1)), JudgeError::InvalidOutput(record(0))] {
        assert_eq!(test.listed(Err(broken.clone())), TestStep::Done(TestExample::EvaluatorFailed));
        assert_eq!(test.generated(Err(broken.clone())), TestStep::Done(TestExample::EvaluatorFailed));
        assert_eq!(test.graded(Err(broken)), TestExample::EvaluatorFailed);
    }
    assert_eq!(
        test.listed(Err(JudgeError::EnvironmentNotFound)),
        TestStep::Done(TestExample::Failed(JudgeError::EnvironmentNotFound))
    );
    assert_eq!(
        test.generated(Err(JudgeError::Sandbox)),
        TestStep::Done(TestExample::Failed(JudgeError::Sandbox))
    );
    assert_eq!(test.graded(Err(JudgeError::EnvironmentNotFound)), TestExample::EnvironmentNotFound);
    assert_eq!(test.graded(Err(JudgeError::Sandbox)), TestExample::Failed(JudgeError::Sandbox));
}

#[test]
fn list_examples_starts_with_the_evaluators_list() {
    assert_eq!(list_examples(None), Err(GetExamples::SubtaskNotFound));
    let (j, solution, request) = list_examples(Some(&stored())).unwrap();
    assert_eq!(j, judge());
    assert_eq!(solution, reference());
    assert_eq!(
        request,
        EvaluatorRequest {
            environment: "python".into(),
            source: "evaluator".into(),
            operation: Operation::ListExamples,
            limits: Limits { time: None, memory: None },
        }
    );
}
