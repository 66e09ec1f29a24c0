//! Multiple-choice questions: what is decided when a user answers one, and
//! when one is updated.

use crate::patch::ActiveValue;
use poem_ext::patch_value::PatchValue;
use crate::subtasks::{wait, wait_before_attempt, Config};
use vstd::prelude::*;

verus! {

/// The multiple-choice endpoints' decisions, under the service's settings.
#[derive(Debug, Clone, Copy, PartialEq, Eq)]
pub struct MultipleChoice {
    pub config: Config,
}

/// An answer of a question, with whether it is right.
#[derive(Debug, Clone, PartialEq, Eq)]
pub struct Answer {
    pub answer: String,
    pub correct: bool,
}

/// What a user is told of an attempt.
#[derive(Debug, Clone, Copy, PartialEq, Eq, Structural)]
pub struct SolveQuestionFeedback {
    pub solved: bool,
    pub correct: usize,
}

/// Why an attempt is not graded.
#[derive(Debug, Clone, Copy, PartialEq, Eq, Structural)]
pub enum SolveQuestionError {
    SubtaskNotFound,
    /// The number of answers given is not that of the question.
    WrongLength,
    /// The user has to wait this many seconds.
    TooManyRequests(u64),
}

/// A graded attempt: what the user is told, and whether the attempt is
/// recorded.
#[derive(Debug, Clone, Copy, PartialEq, Eq, Structural)]
pub struct SolvedQuestion {
    pub feedback: SolveQuestionFeedback,
    pub record_attempt: bool,
}

/// How many of the first `n` marks are the same in both sequences.
pub open spec fn agreeing_marks(given: Seq<bool>, correct: Seq<bool>, n: nat) -> nat
    decreases n,
{
    if n == 0 {
        0
    } else {
        agreeing_marks(given, correct, (n - 1) as nat) + if given[n - 1] == correct[n - 1] {
            1nat
        } else {
            0nat
        }
    }
}

/// Parts the answers of a question into their texts and the marks of which
/// are right, both in the order of the answers.
pub fn split_answers(answers: Vec<Answer>) -> (r: (Vec<String>, Vec<bool>))
    ensures
        r.0@.len() == answers@.len(),
        r.1@.len() == answers@.len(),
        forall|i: int| 0 <= i < answers@.len() ==> r.0@[i] == (#[trigger] answers@[i]).answer,
        forall|i: int| 0 <= i < answers@.len() ==> r.1@[i] == (#[trigger] answers@[i]).correct,
{
    let mut texts: Vec<String> = Vec::new();
    let mut marks: Vec<bool> = Vec::new();
    let mut i: usize = 0;
    while i < answers.len()
        invariant
            i <= answers@.len(),
            texts@.len() == i,
            marks@.len() == i,
            forall|k: int| 0 <= k < i ==> texts@[k] == (#[trigger] answers@[k]).answer,
            forall|k: int| 0 <= k < i ==> marks@[k] == (#[trigger] answers@[k]).correct,
        decreases answers@.len() - i,
    {
        texts.push(answers[i].answer.clone());
        marks.push(answers[i].correct);
        i += 1;
    }
    (texts, marks)
}

/// Counts the answers that are marked as the question marks them, as far
/// as both reach.
pub fn check_answers(given: &[bool], correct: &[bool]) -> (r: usize)
    ensures
        r == agreeing_marks(
            given@,
            correct@,
            if given@.len() <= correct@.len() {
                given@.len()
            } else {
                correct@.len()
            },
        ),
        r <= given@.len(),
        r <= correct@.len(),
{
    let n = if given.len() <= correct.len() {
        given.len()
    } else {
        correct.len()
    };
    let mut count: usize = 0;
    let mut i: usize = 0;
    while i < n
        invariant
            i <= n,
            n <= given@.len(),
            n <= correct@.len(),
            count <= i,
            count == agreeing_marks(given@, correct@, i as nat),
        decreases n - i,
    {
        if given[i] == correct[i] {
            count += 1;
        }
        i += 1;
    }
    count
}

impl MultipleChoice {
    /// Decides whether an attempt is taken up, before the user's earlier
    /// attempts are looked at: the question must exist, and as many answers
    /// must be given as the question has.
    pub fn take_up(&self, question: Option<usize>, given: usize) -> (r: Result<
        (),
        SolveQuestionError,
    >)
        ensures
            match question {
                None => r == Err::<(), SolveQuestionError>(SolveQuestionError::SubtaskNotFound),
                Some(answers) => if given != answers {
                    r == Err::<(), SolveQuestionError>(SolveQuestionError::WrongLength)
                } else {
                    r is Ok
                },
            },
    {
        match question {
            None => Err(SolveQuestionError::SubtaskNotFound),
            Some(answers) => {
                if given != answers {
                    Err(SolveQuestionError::WrongLength)
                } else {
                    Ok(())
                }
            },
        }
    }

    /// Grades an attempt that was taken up, `correct` of the question's
    /// `answers` being answered rightly.
    ///
    /// A user who has not solved the question and has tried before waits
    /// `timeout_incr` seconds for each earlier attempt, counted from the
    /// last one. Else the attempt solves the question where every answer is
    /// right, and it is recorded unless the user had solved the question
    /// before.
    pub fn solve_question(
        &self,
        answers: usize,
        correct: usize,
        solved_previously: bool,
        attempts: usize,
        since_last: i64,
    ) -> (r: Result<SolvedQuestion, SolveQuestionError>)
        requires
            wait(
                self.config.multiple_choice_questions.timeout_incr,
                attempts as nat,
                since_last,
                solved_previously,
            ) matches Some(seconds) ==> seconds <= u64::MAX,
        ensures
            match wait(
                self.config.multiple_choice_questions.timeout_incr,
                attempts as nat,
                since_last,
                solved_previously,
            ) {
                Some(seconds) => r == Err::<SolvedQuestion, SolveQuestionError>(
                    SolveQuestionError::TooManyRequests(seconds as u64),
                ),
                None => r == Ok::<SolvedQuestion, SolveQuestionError>(
                    SolvedQuestion {
                        feedback: SolveQuestionFeedback { solved: correct == answers, correct },
                        record_attempt: !solved_previously,
                    },
                ),
            },
    {
        match wait_before_attempt(
            self.config.multiple_choice_questions.timeout_incr,
            attempts,
            since_last,
            solved_previously,
        ) {
            Some(seconds) => {
                return Err(SolveQuestionError::TooManyRequests(seconds));
            },
            None => {},
        }
        Ok(
            SolvedQuestion {
                feedback: SolveQuestionFeedback { solved: correct == answers, correct },
                record_attempt: !solved_previously,
            },
        )
    }

    /// What is written to a question's answers and to the marks of which of
    /// them are right: both are written anew where the update brings
    /// answers, and both are kept where it does not.
    pub fn update_question<A, C>(&self, new: PatchValue<(A, C)>, answers: A, correct_answers: C) -> (r: (
        ActiveValue<A>,
        ActiveValue<C>,
    ))
        ensures
            r == (match new {
                PatchValue::Set((a, c)) => (ActiveValue::Changed(a), ActiveValue::Changed(c)),
                PatchValue::Unchanged => (
                    ActiveValue::Unchanged(answers),
                    ActiveValue::Unchanged(correct_answers),
                ),
            }),
    {
        match new {
            PatchValue::Set((a, c)) => (ActiveValue::Changed(a), ActiveValue::Changed(c)),
            PatchValue::Unchanged => (
                ActiveValue::Unchanged(answers),
                ActiveValue::Unchanged(correct_answers),
            ),
        }
    }
}

} // verus!
