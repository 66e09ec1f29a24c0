use challenges::patch::{update, ActiveValue};
use challenges::subtasks::{
    count_correct, passes, settle, wait_before_attempt, RewardLimitExceeded, RewardLimits,
    Settlement, Subtask, SubtaskFilter, SubtaskStatus, User,
};

fn subtask() -> Subtask {
    Subtask { id: 11, task_id: 22, creator: 33, xp: 1, coins: 2, fee: 0, enabled: true }
}

fn no_filter() -> SubtaskFilter {
    SubtaskFilter { free: None, unlocked: None, solved: None, rated: None, enabled: None }
}

#[test]
fn a_disabled_subtask_is_seen_by_admins_and_its_creator() {
    let hidden = Subtask { enabled: false, ..subtask() };
    assert!(User { id: 1, admin: false }.sees(&subtask()));
    assert!(!User { id: 1, admin: false }.sees(&hidden));
    assert!(User { id: 1, admin: true }.sees(&hidden));
    assert!(User { id: 33, admin: false }.sees(&hidden));
    assert!(!User { id: 1, admin: false }.sees_solution(&subtask()));
    assert!(User { id: 1, admin: true }.sees_solution(&subtask()));
    assert!(User { id: 33, admin: false }.sees_solution(&subtask()));
}

#[test]
fn a_filter_narrows_by_what_it_names() {
    let user = User { id: 1, admin: false };
    let status = SubtaskStatus { unlocked: true, solved: false, rated: true };
    let s = subtask();
    assert!(no_filter().lists(&user, &s, &status));
    assert!(SubtaskFilter { free: Some(true), ..no_filter() }.lists(&user, &s, &status));
    assert!(!SubtaskFilter { free: Some(false), ..no_filter() }.lists(&user, &s, &status));
    let paid = Subtask { fee: 1, ..s };
    assert!(!SubtaskFilter { free: Some(true), ..no_filter() }.lists(&user, &paid, &status));
    assert!(SubtaskFilter { free: Some(false), ..no_filter() }.lists(&user, &paid, &status));
    let refund = Subtask { fee: -1, ..s };
    assert!(SubtaskFilter { free: Some(true), ..no_filter() }.lists(&user, &refund, &status));
    assert!(SubtaskFilter { unlocked: Some(true), ..no_filter() }.lists(&user, &s, &status));
    assert!(!SubtaskFilter { unlocked: Some(false), ..no_filter() }.lists(&user, &s, &status));
    assert!(!SubtaskFilter { solved: Some(true), ..no_filter() }.lists(&user, &s, &status));
    assert!(SubtaskFilter { solved: Some(false), ..no_filter() }.lists(&user, &s, &status));
    assert!(SubtaskFilter { rated: Some(true), ..no_filter() }.lists(&user, &s, &status));
    assert!(!SubtaskFilter { rated: Some(false), ..no_filter() }.lists(&user, &s, &status));
    assert!(SubtaskFilter { enabled: Some(true), ..no_filter() }.lists(&user, &s, &status));
    assert!(!SubtaskFilter { enabled: Some(false), ..no_filter() }.lists(&user, &s, &status));
}

#[test]
fn a_filter_never_lists_what_the_user_may_not_see() {
    let status = SubtaskStatus { unlocked: true, solved: false, rated: true };
    let hidden = Subtask { enabled: false, ..subtask() };
    let wants_disabled = SubtaskFilter { enabled: Some(false), ..no_filter() };
    assert!(!wants_disabled.lists(&User { id: 1, admin: false }, &hidden, &status));
    assert!(wants_disabled.lists(&User { id: 1, admin: true }, &hidden, &status));
    assert!(wants_disabled.lists(&User { id: 33, admin: false }, &hidden, &status));
}

#[test]
fn passes_lets_through_what_is_asked_for() {
    assert!(passes(None, true));
    assert!(passes(None, false));
    assert!(passes(Some(true), true));
    assert!(passes(Some(false), false));
    assert!(!passes(Some(true), false));
    assert!(!passes(Some(false), true));
}

#[test]
fn reward_limits_name_the_first_that_is_exceeded() {
    let limits = RewardLimits { max_xp: 5, max_coins: 6, max_fee: 7 };
    let user = User { id: 1, admin: false };
    assert_eq!(limits.check(&user, true, 5, 6, 7), None);
    assert_eq!(limits.check(&user, true, 6, 7, 8), Some(RewardLimitExceeded::Xp(5)));
    assert_eq!(limits.check(&user, true, 5, 7, 8), Some(RewardLimitExceeded::Coins(6)));
    assert_eq!(limits.check(&user, true, 5, 6, 8), Some(RewardLimitExceeded::Fee(7)));
    assert_eq!(limits.check(&user, false, 6, 7, 8), None);
    assert_eq!(limits.check(&User { id: 1, admin: true }, true, 6, 7, 8), None);
}

#[test]
fn the_wait_grows_with_every_attempt() {
    assert_eq!(wait_before_attempt(10, 0, 0, false), None);
    assert_eq!(wait_before_attempt(10, 0, -100, false), None);
    assert_eq!(wait_before_attempt(10, 1, 0, false), Some(10));
    assert_eq!(wait_before_attempt(10, 1, 9, false), Some(1));
    assert_eq!(wait_before_attempt(10, 1, 10, false), None);
    assert_eq!(wait_before_attempt(10, 1, 11, false), None);
    assert_eq!(wait_before_attempt(10, 4, 15, false), Some(25));
    assert_eq!(wait_before_attempt(10, 4, -15, false), Some(55));
    assert_eq!(wait_before_attempt(0, 4, 0, false), None);
    assert_eq!(wait_before_attempt(10, 4, 15, true), None);
    assert_eq!(wait_before_attempt(u64::MAX, 1, 0, false), Some(u64::MAX));
    assert_eq!(wait_before_attempt(u64::MAX, 1, i64::MAX, false), Some(u64::MAX - i64::MAX as u64));
    assert_eq!(wait_before_attempt(1, 1, i64::MIN, false), Some(1 + (1u64 << 63)));
}

#[test]
fn count_correct_counts_position_by_position() {
    assert_eq!(count_correct(&[], &[]), 0);
    assert_eq!(count_correct(&[2, 0, 1], &[2, 0, 1]), 3);
    assert_eq!(count_correct(&[2, 1, 0], &[2, 0, 1]), 1);
    assert_eq!(count_correct(&[0, 2, 1], &[2, 0, 1]), 1);
    assert_eq!(count_correct(&[1, 2, 0], &[2, 0, 1]), 0);
    assert_eq!(count_correct(&[2, 0], &[2, 0, 1]), 2);
    assert_eq!(count_correct(&[2, 0, 1, 7], &[2, 9]), 1);
}

#[test]
fn settle_writes_for_the_first_solve_only() {
    let user = User { id: 1, admin: false };
    let s = subtask();
    assert_eq!(
        settle(&user, &s, false, false, true),
        Some(Settlement { mark_solved: true, mark_unlocked: true, send_rewards: true })
    );
    assert_eq!(
        settle(&user, &s, true, false, true),
        Some(Settlement { mark_solved: true, mark_unlocked: false, send_rewards: true })
    );
    assert_eq!(
        settle(&user, &s, false, false, false),
        Some(Settlement { mark_solved: false, mark_unlocked: false, send_rewards: false })
    );
    assert_eq!(settle(&user, &s, true, true, true), None);
    assert_eq!(settle(&user, &s, true, true, false), None);
    assert_eq!(
        settle(&User { id: 33, admin: true }, &s, false, false, true),
        Some(Settlement { mark_solved: true, mark_unlocked: true, send_rewards: false })
    );
}

#[test]
fn update_writes_the_new_value_or_keeps_the_old() {
    assert_eq!(update("old".to_string(), Some("new".to_string())), ActiveValue::Changed("new".to_string()));
    assert_eq!(update("old".to_string(), None), ActiveValue::Unchanged("old".to_string()));
    assert_eq!(update(1u8, Some(1u8)), ActiveValue::Changed(1));
}

#[test]
fn access_is_free_unlocked_or_privileged() {
    let user = User { id: 1, admin: false };
    let paid = Subtask { fee: 5, ..subtask() };
    assert!(user.check_access(&subtask(), false));
    assert!(!user.check_access(&paid, false));
    assert!(user.check_access(&paid, true));
    assert!(User { id: 1, admin: true }.check_access(&paid, false));
    assert!(User { id: 33, admin: false }.check_access(&paid, false));
    assert!(user.check_access(&Subtask { fee: -1, ..subtask() }, false));
}
