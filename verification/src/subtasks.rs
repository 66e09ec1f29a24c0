//! What all kinds of subtask share: who may see one, how a list of them is
//! filtered, how long a user waits between attempts, and what is recorded
//! when an attempt is made.

use vstd::prelude::*;

verus! {

/// The user on whose behalf a request is made.
#[derive(Debug, Clone, Copy, PartialEq, Eq, Structural)]
pub struct User {
    pub id: u128,
    pub admin: bool,
}

/// The part of a task that a user solves.
#[derive(Debug, Clone, Copy, PartialEq, Eq, Structural)]
pub struct Subtask {
    pub id: u128,
    pub task_id: u128,
    pub creator: u128,
    pub xp: i64,
    pub coins: i64,
    pub fee: i64,
    pub enabled: bool,
}

/// How a user stands to a subtask.
#[derive(Debug, Clone, Copy, PartialEq, Eq, Structural)]
pub struct SubtaskStatus {
    pub unlocked: bool,
    pub solved: bool,
    pub rated: bool,
}

/// What a list of subtasks is narrowed to. An absent field narrows nothing.
#[derive(Debug, Clone, Copy, PartialEq, Eq, Structural)]
pub struct SubtaskFilter {
    pub free: Option<bool>,
    pub unlocked: Option<bool>,
    pub solved: Option<bool>,
    pub rated: Option<bool>,
    pub enabled: Option<bool>,
}

/// The limits on what a subtask made by a user may grant and cost.
#[derive(Debug, Clone, Copy, PartialEq, Eq, Structural)]
pub struct RewardLimits {
    pub max_xp: u64,
    pub max_coins: u64,
    pub max_fee: u64,
}

/// How attempts on one kind of subtask are slowed down.
#[derive(Debug, Clone, Copy, PartialEq, Eq, Structural)]
pub struct AttemptConfig {
    /// The seconds of waiting that each earlier attempt adds.
    pub timeout_incr: u64,
}

/// The service's settings, as far as decisions depend on them.
#[derive(Debug, Clone, Copy, PartialEq, Eq, Structural)]
pub struct Config {
    pub quizzes: RewardLimits,
    pub matchings: AttemptConfig,
    pub multiple_choice_questions: AttemptConfig,
}

/// The limit that a new subtask goes beyond.
#[derive(Debug, Clone, Copy, PartialEq, Eq, Structural)]
pub enum RewardLimitExceeded {
    Xp(u64),
    Coins(u64),
    Fee(u64),
}

/// Whether a user is barred from an action, and until when. The library
/// carries the time and does not read it.
#[derive(Debug, Clone, Copy, PartialEq, Eq)]
pub enum ActiveBan<T> {
    NotBanned,
    Temporary(T),
    Permanent,
}

/// What is written when an attempt was graded, besides the attempt itself.
#[derive(Debug, Clone, Copy, PartialEq, Eq, Structural)]
pub struct Settlement {
    /// The subtask is marked as solved by the user, as of now.
    pub mark_solved: bool,
    /// The subtask is marked as unlocked as of now, which it was not before.
    pub mark_unlocked: bool,
    /// The subtask's rewards are sent to the user.
    pub send_rewards: bool,
}

/// A subtask is visible to admins and to its creator always, to others
/// while it is enabled.
pub open spec fn is_visible(user: User, subtask: Subtask) -> bool {
    user.admin || user.id == subtask.creator || subtask.enabled
}

/// A user has access to a subtask that costs nothing or that the user has
/// unlocked; admins and the subtask's creator have access to it always.
pub open spec fn has_access(user: User, subtask: Subtask, unlocked: bool) -> bool {
    user.admin || user.id == subtask.creator || subtask.fee <= 0 || unlocked
}

/// A filter lets a value through where it asks for nothing or for that value.
pub open spec fn admits(wanted: Option<bool>, is: bool) -> bool {
    wanted is None || wanted == Some(is)
}

/// Whether a subtask is part of a filtered list.
pub open spec fn is_listed(
    user: User,
    subtask: Subtask,
    status: SubtaskStatus,
    filter: SubtaskFilter,
) -> bool {
    &&& is_visible(user, subtask)
    &&& admits(filter.free, subtask.fee <= 0)
    &&& admits(filter.unlocked, status.unlocked)
    &&& admits(filter.solved, status.solved)
    &&& admits(filter.rated, status.rated)
    &&& admits(filter.enabled, subtask.enabled)
}

/// The seconds a user has still to wait before the next attempt: after
/// `attempts` attempts, `timeout_incr` seconds for each of them, less the
/// seconds that have passed since the last one.
pub open spec fn time_left(timeout_incr: u64, attempts: nat, since_last: i64) -> int {
    timeout_incr * attempts - since_last
}

/// The seconds that a user who has not solved the subtask is told to wait,
/// if any: there is a wait only after an earlier attempt.
pub open spec fn wait(
    timeout_incr: u64,
    attempts: nat,
    since_last: i64,
    solved_previously: bool,
) -> Option<int> {
    if attempts > 0 && !solved_previously && time_left(timeout_incr, attempts, since_last) > 0 {
        Some(time_left(timeout_incr, attempts, since_last))
    } else {
        None
    }
}

/// What is written for an attempt. Nothing is written for a user who had
/// solved the subtask before. A first solve marks the subtask solved, marks
/// it unlocked where it was not, and rewards the user unless the user made
/// the subtask.
pub open spec fn settlement(
    user: User,
    subtask: Subtask,
    unlocked_before: bool,
    solved_previously: bool,
    solved: bool,
) -> Option<Settlement> {
    if solved_previously {
        None
    } else {
        Some(
            Settlement {
                mark_solved: solved,
                mark_unlocked: solved && !unlocked_before,
                send_rewards: solved && user.id != subtask.creator,
            },
        )
    }
}

/// The first limit that a new subtask goes beyond, if any. The limits hold
/// for the subtasks of course tasks, and not for admins.
pub open spec fn exceeded(
    limits: RewardLimits,
    user: User,
    course_task: bool,
    xp: u64,
    coins: u64,
    fee: u64,
) -> Option<RewardLimitExceeded> {
    if !course_task || user.admin {
        None
    } else if xp > limits.max_xp {
        Some(RewardLimitExceeded::Xp(limits.max_xp))
    } else if coins > limits.max_coins {
        Some(RewardLimitExceeded::Coins(limits.max_coins))
    } else if fee > limits.max_fee {
        Some(RewardLimitExceeded::Fee(limits.max_fee))
    } else {
        None
    }
}

/// How many of the first `n` positions hold the same value in both sequences.
pub open spec fn agreeing(a: Seq<u8>, b: Seq<u8>, n: nat) -> nat
    decreases n,
{
    if n == 0 {
        0
    } else {
        agreeing(a, b, (n - 1) as nat) + if a[n - 1] == b[n - 1] {
            1nat
        } else {
            0nat
        }
    }
}

/// How many positions hold the same value in both sequences, as far as
/// both reach.
pub open spec fn count_equal(a: Seq<u8>, b: Seq<u8>) -> nat {
    agreeing(a, b, if a.len() <= b.len() { a.len() } else { b.len() })
}

impl User {
    /// Whether the user may see the subtask at all.
    pub fn sees(&self, subtask: &Subtask) -> (r: bool)
        ensures
            r == is_visible(*self, *subtask),
    {
        self.admin || self.id == subtask.creator || subtask.enabled
    }

    /// Whether the user has access to the subtask, having unlocked it or not.
    pub fn check_access(&self, subtask: &Subtask, unlocked: bool) -> (r: bool)
        ensures
            r == has_access(*self, *subtask, unlocked),
    {
        self.admin || self.id == subtask.creator || subtask.fee <= 0 || unlocked
    }

    /// Whether the user may see the solution of the subtask: admins and the
    /// subtask's creator may.
    pub fn sees_solution(&self, subtask: &Subtask) -> (r: bool)
        ensures
            r == (self.admin || self.id == subtask.creator),
    {
        self.admin || self.id == subtask.creator
    }
}

impl RewardLimits {
    /// The first limit that a new subtask with these rewards and this fee
    /// goes beyond, if any.
    pub fn check(&self, user: &User, course_task: bool, xp: u64, coins: u64, fee: u64) -> (r:
        Option<RewardLimitExceeded>)
        ensures
            r == exceeded(*self, *user, course_task, xp, coins, fee),
    {
        if !course_task || user.admin {
            None
        } else if xp > self.max_xp {
            Some(RewardLimitExceeded::Xp(self.max_xp))
        } else if coins > self.max_coins {
            Some(RewardLimitExceeded::Coins(self.max_coins))
        } else if fee > self.max_fee {
            Some(RewardLimitExceeded::Fee(self.max_fee))
        } else {
            None
        }
    }
}

impl SubtaskFilter {
    /// Whether the subtask is part of the list that this filter describes.
    pub fn lists(&self, user: &User, subtask: &Subtask, status: &SubtaskStatus) -> (r: bool)
        ensures
            r == is_listed(*user, *subtask, *status, *self),
    {
        let free = subtask.fee <= 0;
        user.sees(subtask) && passes(self.free, free) && passes(self.unlocked, status.unlocked)
            && passes(self.solved, status.solved) && passes(self.rated, status.rated) && passes(
            self.enabled,
            subtask.enabled,
        )
    }
}

/// Whether a filter lets a value through.
pub fn passes(wanted: Option<bool>, is: bool) -> (r: bool)
    ensures
        r == admits(wanted, is),
{
    match wanted {
        None => true,
        Some(w) => w == is,
    }
}

/// The seconds that the user is told to wait before the next attempt, if
/// any.
///
/// The wait must fit the number it is told in.
pub fn wait_before_attempt(
    timeout_incr: u64,
    attempts: usize,
    since_last: i64,
    solved_previously: bool,
) -> (r: Option<u64>)
    requires
        wait(timeout_incr, attempts as nat, since_last, solved_previously) matches Some(seconds)
            ==> seconds <= u64::MAX,
    ensures
        match wait(timeout_incr, attempts as nat, since_last, solved_previously) {
            Some(seconds) => r == Some(seconds as u64),
            None => r is None,
        },
{
    if attempts == 0 || solved_previously {
        return None;
    }
    let total: u128 = (timeout_incr as u128) * (attempts as u128);
    assert(total == timeout_incr * attempts) by (nonlinear_arith)
        requires
            total == (timeout_incr as u128) * (attempts as u128),
            timeout_incr <= u64::MAX,
            attempts <= u64::MAX,
    ;
    if since_last >= 0 {
        let passed: u128 = since_last as u128;
        if total > passed {
            Some((total - passed) as u64)
        } else {
            None
        }
    } else {
        let owed: u128 = (-(since_last as i128)) as u128;
        Some((total + owed) as u64)
    }
}

/// Counts the positions at which the answer agrees with the solution.
pub fn count_correct(answer: &[u8], solution: &[u8]) -> (r: usize)
    ensures
        r == count_equal(answer@, solution@),
        r <= answer@.len(),
        r <= solution@.len(),
{
    let n = if answer.len() <= solution.len() {
        answer.len()
    } else {
        solution.len()
    };
    let mut correct: usize = 0;
    let mut i: usize = 0;
    while i < n
        invariant
            i <= n,
            n <= answer@.len(),
            n <= solution@.len(),
            correct <= i,
            correct == agreeing(answer@, solution@, i as nat),
        decreases n - i,
    {
        if answer[i] == solution[i] {
            correct += 1;
        }
        i += 1;
    }
    correct
}

/// What is written for an attempt, besides the attempt itself.
pub fn settle(
    user: &User,
    subtask: &Subtask,
    unlocked_before: bool,
    solved_previously: bool,
    solved: bool,
) -> (r: Option<Settlement>)
    ensures
        r == settlement(*user, *subtask, unlocked_before, solved_previously, solved),
{
    if solved_previously {
        None
    } else {
        Some(
            Settlement {
                mark_solved: solved,
                mark_unlocked: solved && !unlocked_before,
                send_rewards: solved && user.id != subtask.creator,
            },
        )
    }
}

} // verus!
