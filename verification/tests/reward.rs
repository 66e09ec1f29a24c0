use challenges::reward::RewardGuard;
use challenges::subtasks::{Settlement, Subtask, User};

fn subtask() -> Subtask {
    Subtask { id: 11, task_id: 22, creator: 33, xp: 1, coins: 2, fee: 0, enabled: true }
}

#[test]
fn a_guard_is_held_by_one_at_a_time() {
    let mut guard = RewardGuard::new();
    assert!(guard.try_enter(11));
    assert!(!guard.try_enter(11));
    assert!(guard.try_enter(12));
    guard.leave(11);
    assert!(!guard.try_enter(12));
    assert!(guard.try_enter(11));
}

#[test]
fn leaving_a_guard_that_is_not_held_changes_nothing() {
    let mut guard = RewardGuard::new();
    guard.leave(11);
    assert!(guard.try_enter(11));
}

#[test]
fn two_first_solves_are_rewarded_once() {
    let mut guard = RewardGuard::new();
    let user = User { id: 1, admin: false };
    let s = subtask();
    let mut solved_in_store = false;
    let mut rewards = 0;
    let mut solves = 0;

    assert!(guard.try_enter(s.id));
    assert!(!guard.try_enter(s.id));
    let first = guard.settle_attempt(&user, &s, false, solved_in_store, true);
    assert_eq!(
        first,
        Some(Settlement { mark_solved: true, mark_unlocked: true, send_rewards: true })
    );
    if let Some(settlement) = first {
        if settlement.mark_solved {
            solved_in_store = true;
            solves += 1;
        }
        if settlement.send_rewards {
            rewards += 1;
        }
    }
    guard.leave(s.id);

    assert!(guard.try_enter(s.id));
    let second = guard.settle_attempt(&user, &s, true, solved_in_store, true);
    assert_eq!(second, None);
    guard.leave(s.id);

    assert_eq!(solves, 1);
    assert_eq!(rewards, 1);
}

#[test]
fn the_creator_is_not_rewarded() {
    let mut guard = RewardGuard::new();
    assert!(guard.try_enter(11));
    assert_eq!(
        guard.settle_attempt(&User { id: 33, admin: false }, &subtask(), true, false, true),
        Some(Settlement { mark_solved: true, mark_unlocked: false, send_rewards: false })
    );
}

#[test]
fn a_failed_attempt_marks_and_rewards_nothing() {
    let mut guard = RewardGuard::new();
    assert!(guard.try_enter(11));
    assert_eq!(
        guard.settle_attempt(&User { id: 1, admin: false }, &subtask(), false, false, false),
        Some(Settlement { mark_solved: false, mark_unlocked: false, send_rewards: false })
    );
}
