use challenges::multiple_choice::{
    check_answers, split_answers, Answer, MultipleChoice, SolveQuestionError,
    SolveQuestionFeedback, SolvedQuestion,
};
use challenges::patch::ActiveValue;
use challenges::subtasks::{AttemptConfig, Config, RewardLimits};
use poem_ext::patch_value::PatchValue;

fn multiple_choice() -> MultipleChoice {
    MultipleChoice {
        config: Config {
            quizzes: RewardLimits { max_xp: 5, max_coins: 6, max_fee: 7 },
            matchings: AttemptConfig { timeout_incr: 10 },
            multiple_choice_questions: AttemptConfig { timeout_incr: 3 },
        },
    }
}

#[test]
fn a_question_takes_as_many_answers_as_it_has() {
    let m = multiple_choice();
    assert_eq!(m.take_up(None, 4), Err(SolveQuestionError::SubtaskNotFound));
    assert_eq!(m.take_up(Some(4), 3), Err(SolveQuestionError::WrongLength));
    assert_eq!(m.take_up(Some(4), 5), Err(SolveQuestionError::WrongLength));
    assert_eq!(m.take_up(Some(4), 4), Ok(()));
    assert_eq!(m.take_up(Some(0), 0), Ok(()));
}

#[test]
fn solve_question_grades_and_records() {
    let m = multiple_choice();
    assert_eq!(
        m.solve_question(4, 4, false, 0, 0),
        Ok(SolvedQuestion {
            feedback: SolveQuestionFeedback { solved: true, correct: 4 },
            record_attempt: true,
        })
    );
    assert_eq!(
        m.solve_question(4, 3, false, 0, 0),
        Ok(SolvedQuestion {
            feedback: SolveQuestionFeedback { solved: false, correct: 3 },
            record_attempt: true,
        })
    );
    assert_eq!(
        m.solve_question(4, 4, true, 9, 0),
        Ok(SolvedQuestion {
            feedback: SolveQuestionFeedback { solved: true, correct: 4 },
            record_attempt: false,
        })
    );
}

#[test]
fn solve_question_makes_the_user_wait() {
    let m = multiple_choice();
    assert_eq!(m.solve_question(4, 4, false, 2, 1), Err(SolveQuestionError::TooManyRequests(5)));
    assert_eq!(m.solve_question(4, 4, false, 2, 5), Err(SolveQuestionError::TooManyRequests(1)));
    assert!(m.solve_question(4, 4, false, 2, 6).is_ok());
}

#[test]
fn update_question_writes_answers_and_marks_together() {
    let m = multiple_choice();
    assert_eq!(
        m.update_question(PatchValue::Set((vec!["a".to_string()], 1i64)), vec!["old".to_string()], 0i64),
        (ActiveValue::Changed(vec!["a".to_string()]), ActiveValue::Changed(1))
    );
    assert_eq!(
        m.update_question(PatchValue::Unchanged, vec!["old".to_string()], 2i64),
        (ActiveValue::Unchanged(vec!["old".to_string()]), ActiveValue::Unchanged(2))
    );
}

#[test]
fn split_answers_parts_texts_and_marks() {
    let answer = |text: &str, correct| Answer { answer: text.into(), correct };
    assert_eq!(split_answers(Vec::new()), (Vec::new(), Vec::new()));
    assert_eq!(
        split_answers(vec![answer("a", true), answer("b", false), answer("c", true)]),
        (vec!["a".to_string(), "b".to_string(), "c".to_string()], vec![true, false, true])
    );
}

#[test]
fn check_answers_counts_the_marks_that_agree() {
    assert_eq!(check_answers(&[], &[]), 0);
    assert_eq!(check_answers(&[true, false, true], &[true, false, true]), 3);
    assert_eq!(check_answers(&[true, true, true], &[true, false, true]), 2);
    assert_eq!(check_answers(&[false, true, false], &[true, false, true]), 0);
    assert_eq!(check_answers(&[true], &[true, false, true]), 1);
    assert_eq!(check_answers(&[true, false, false, true], &[true, false]), 2);
}
