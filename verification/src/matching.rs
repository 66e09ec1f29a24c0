//! Matching tasks: a list of left entries, a list of right entries, and a
//! solution that gives, for each left entry, the index of its right entry.

use crate::patch::patched;
use poem_ext::patch_value::PatchValue;
use crate::subtasks::{
    count_correct, count_equal, exceeded, is_visible, settle, settlement, wait, wait_before_attempt,
    ActiveBan, Config, RewardLimitExceeded, Settlement, Subtask, SubtaskStatus, User,
};
use std::collections::HashSet;
use vstd::prelude::*;

verus! {

broadcast use vstd::std_specs::hash::group_hash_axioms;

/// Why a matching task is rejected.
#[derive(Debug, PartialEq, Eq)]
pub enum InvalidMatchingError {
    /// The left and the right list differ in length.
    LeftRightDifferentLength,
    /// The solution's length differs from that of the two lists.
    SolutionDifferentLength,
    /// The solution holds this index, which names no right entry.
    InvalidIndex(u8),
    /// These right entries are matched by no left entry.
    RightEntriesNotMatched(HashSet<u8>),
}

/// The mathematical content of an [`InvalidMatchingError`].
pub enum MatchingFault {
    LeftRightDifferentLength,
    SolutionDifferentLength,
    InvalidIndex(u8),
    RightEntriesNotMatched(Set<u8>),
}

impl View for InvalidMatchingError {
    type V = MatchingFault;

    open spec fn view(&self) -> MatchingFault {
        match self {
            InvalidMatchingError::LeftRightDifferentLength => MatchingFault::LeftRightDifferentLength,
            InvalidMatchingError::SolutionDifferentLength => MatchingFault::SolutionDifferentLength,
            InvalidMatchingError::InvalidIndex(x) => MatchingFault::InvalidIndex(*x),
            InvalidMatchingError::RightEntriesNotMatched(s) => MatchingFault::RightEntriesNotMatched(
                s@,
            ),
        }
    }
}

/// The number of entries as an index of the solution sees it: indices are
/// bytes, so the length is taken modulo 256.
pub open spec fn index_bound(len: nat) -> nat {
    len % 256
}

/// The right entries below `bound` that no entry of `solution` names.
pub open spec fn unmatched(solution: Seq<u8>, bound: nat) -> Set<u8> {
    Set::new(|x: u8| x < bound && !solution.contains(x))
}

/// `i` is the first position of `solution` that holds an index not below `bound`.
pub open spec fn is_first_invalid(solution: Seq<u8>, bound: nat, i: int) -> bool {
    &&& 0 <= i < solution.len()
    &&& solution[i] >= bound
    &&& forall|j: int| 0 <= j < i ==> solution[j] < bound
}

/// What [`check_matching`] answers for lists of the given lengths and a solution.
pub open spec fn matching_fault(left: nat, right: nat, solution: Seq<u8>) -> Option<
    MatchingFault,
> {
    let bound = index_bound(left);
    if right != left {
        Some(MatchingFault::LeftRightDifferentLength)
    } else if solution.len() != left {
        Some(MatchingFault::SolutionDifferentLength)
    } else if exists|i: int| is_first_invalid(solution, bound, i) {
        Some(
            MatchingFault::InvalidIndex(
                solution[choose|i: int| is_first_invalid(solution, bound, i)],
            ),
        )
    } else if unmatched(solution, bound) != Set::<u8>::empty() {
        Some(MatchingFault::RightEntriesNotMatched(unmatched(solution, bound)))
    } else {
        None
    }
}

/// Two positions that are both the first invalid one are the same position.
pub proof fn lemma_first_invalid_unique(solution: Seq<u8>, bound: nat, i: int, j: int)
    requires
        is_first_invalid(solution, bound, i),
        is_first_invalid(solution, bound, j),
    ensures
        i == j,
{
}

/// Checks that `solution` matches every left entry with a right entry and
/// leaves no right entry out.
///
/// The checks are made in this order: the two lists have the same length;
/// the solution has that length; every index of the solution names a right
/// entry (the first that does not is reported); every right entry is named
/// (all that are not are reported together).
pub fn check_matching(left: &[String], right: &[String], solution: &[u8]) -> (r: Result<
    (),
    InvalidMatchingError,
>)
    ensures
        match matching_fault(left@.len(), right@.len(), solution@) {
            None => r is Ok,
            Some(fault) => r is Err && r->Err_0@ == fault,
        },
{
    let n = left.len();
    if right.len() != n {
        return Err(InvalidMatchingError::LeftRightDifferentLength);
    }
    if solution.len() != n {
        return Err(InvalidMatchingError::SolutionDifferentLength);
    }
    let bound: u8 = (n % 256) as u8;
    let mut i: usize = 0;
    while i < n
        invariant
            i <= n,
            n == left@.len(),
            n == right@.len(),
            n == solution@.len(),
            bound == index_bound(n as nat),
            forall|j: int| 0 <= j < i ==> solution@[j] < bound,
        decreases n - i,
    {
        let x = solution[i];
        if x >= bound {
            proof {
                let w = choose|w: int| is_first_invalid(solution@, bound as nat, w);
                lemma_first_invalid_unique(solution@, bound as nat, i as int, w);
            }
            return Err(InvalidMatchingError::InvalidIndex(x));
        }
        i += 1;
    }
    let mut not_matched: HashSet<u8> = HashSet::new();
    let mut x: u8 = 0;
    while x < bound
        invariant
            x <= bound,
            not_matched@ == Set::new(|y: u8| y < x),
        decreases bound - x,
    {
        not_matched.insert(x);
        x += 1;
    }
    let mut k: usize = 0;
    while k < n
        invariant
            k <= n,
            n == solution@.len(),
            not_matched@ == unmatched(solution@.take(k as int), bound as nat),
        decreases n - k,
    {
        let y = solution[k];
        not_matched.remove(&y);
        proof {
            let before = solution@.take(k as int);
            let after = solution@.take(k + 1);
            assert forall|z: u8| after.contains(z) <==> (before.contains(z) || z == y) by {
                if z == y {
                    assert(after[k as int] == z);
                }
            }
        }
        k += 1;
    }
    assert(solution@.take(n as int) =~= solution@);
    if !not_matched.is_empty() {
        return Err(InvalidMatchingError::RightEntriesNotMatched(not_matched));
    }
    Ok(())
}

/// The matching endpoints' decisions, under the service's settings.
#[derive(Debug, Clone, Copy, PartialEq, Eq)]
pub struct Matchings {
    pub config: Config,
}

/// A matching task as it is stored.
#[derive(Debug, Clone, PartialEq, Eq)]
pub struct Matching {
    pub subtask_id: u128,
    pub left: Vec<String>,
    pub right: Vec<String>,
    pub solution: Vec<u8>,
}

/// A new matching task.
#[derive(Debug, Clone, PartialEq, Eq)]
pub struct CreateMatchingRequest {
    pub xp: u64,
    pub coins: u64,
    pub fee: u64,
    pub left: Vec<String>,
    pub right: Vec<String>,
    pub solution: Vec<u8>,
}

/// An update of a matching task. An absent field is left as it is.
#[derive(Debug, PartialEq, Eq)]
pub struct UpdateMatchingRequest {
    pub task_id: PatchValue<u128>,
    pub xp: PatchValue<u64>,
    pub coins: PatchValue<u64>,
    pub fee: PatchValue<u64>,
    pub enabled: PatchValue<bool>,
    pub left: PatchValue<Vec<String>>,
    pub right: PatchValue<Vec<String>>,
    pub solution: PatchValue<Vec<u8>>,
}

/// What a user is told of an attempt.
#[derive(Debug, Clone, Copy, PartialEq, Eq, Structural)]
pub struct SolveMatchingFeedback {
    pub solved: bool,
    pub correct: usize,
}

/// Why a matching is not shown.
#[derive(Debug, Clone, Copy, PartialEq, Eq, Structural)]
pub enum GetMatchingError {
    SubtaskNotFound,
    NoAccess,
}

/// Why a matching is not shown with its solution.
#[derive(Debug, Clone, Copy, PartialEq, Eq, Structural)]
pub enum GetSolutionError {
    SubtaskNotFound,
    Forbidden,
}

/// Why a matching is not created.
#[derive(Debug, PartialEq, Eq)]
pub enum CreateMatchingError<T> {
    TaskNotFound,
    Forbidden,
    XpLimitExceeded(u64),
    CoinLimitExceeded(u64),
    FeeLimitExceeded(u64),
    /// The user is barred from creating subtasks, until the time given or for good.
    Banned(Option<T>),
    Invalid(InvalidMatchingError),
}

/// Why a matching is not updated.
#[derive(Debug, PartialEq, Eq)]
pub enum UpdateMatchingError {
    SubtaskNotFound,
    TaskNotFound,
    Invalid(InvalidMatchingError),
}

/// Why an attempt is not graded.
#[derive(Debug, Clone, Copy, PartialEq, Eq, Structural)]
pub enum SolveMatchingError {
    SubtaskNotFound,
    NoAccess,
    SolutionDifferentLength,
    /// The user has to wait this many seconds.
    TooManyRequests(u64),
}

/// A graded attempt: what the user is told, and what is written. With
/// `settlement` absent nothing is written, not even the attempt.
#[derive(Debug, Clone, Copy, PartialEq, Eq, Structural)]
pub struct SolvedMatching {
    pub feedback: SolveMatchingFeedback,
    pub settlement: Option<Settlement>,
}

/// Whether a user gets to see a subtask: it must exist and be visible to the
/// user, who must have access to it.
pub open spec fn shown(user: User, subtask: Option<Subtask>, has_access: bool) -> Result<
    (),
    GetMatchingError,
> {
    match subtask {
        None => Err(GetMatchingError::SubtaskNotFound),
        Some(s) => if !is_visible(user, s) {
            Err(GetMatchingError::SubtaskNotFound)
        } else if !has_access {
            Err(GetMatchingError::NoAccess)
        } else {
            Ok(())
        },
    }
}

/// Why an attempt is not taken up, if it is not. An attempt is taken up on
/// a subtask that is shown to the user, with an answer as long as the solution.
pub open spec fn refused(
    user: User,
    subtask: Option<Subtask>,
    has_access: bool,
    answer: nat,
    solution: nat,
) -> Option<SolveMatchingError> {
    match shown(user, subtask, has_access) {
        Err(GetMatchingError::SubtaskNotFound) => Some(SolveMatchingError::SubtaskNotFound),
        Err(GetMatchingError::NoAccess) => Some(SolveMatchingError::NoAccess),
        Ok(_) => if answer != solution {
            Some(SolveMatchingError::SolutionDifferentLength)
        } else {
            None
        },
    }
}

impl Matchings {
    /// Whether a matching is shown to the user. Where it is, the user's
    /// standing is returned, the matching counting as unlocked.
    pub fn get_matching(
        &self,
        user: &User,
        subtask: Option<&Subtask>,
        has_access: bool,
        status: &SubtaskStatus,
    ) -> (r: Result<SubtaskStatus, GetMatchingError>)
        ensures
            match shown(
                *user,
                match subtask {
                    Some(s) => Some(*s),
                    None => None,
                },
                has_access,
            ) {
                Err(e) => r == Err::<SubtaskStatus, GetMatchingError>(e),
                Ok(_) => r == Ok::<SubtaskStatus, GetMatchingError>(
                    SubtaskStatus { unlocked: true, solved: status.solved, rated: status.rated },
                ),
            },
    {
        match subtask {
            None => Err(GetMatchingError::SubtaskNotFound),
            Some(s) => {
                if !user.sees(s) {
                    Err(GetMatchingError::SubtaskNotFound)
                } else if !has_access {
                    Err(GetMatchingError::NoAccess)
                } else {
                    Ok(SubtaskStatus { unlocked: true, solved: status.solved, rated: status.rated })
                }
            },
        }
    }

    /// Whether a matching is shown with its solution: to admins and to its
    /// creator. The matching then counts as unlocked.
    pub fn get_matching_with_solution(
        &self,
        user: &User,
        subtask: Option<&Subtask>,
        status: &SubtaskStatus,
    ) -> (r: Result<SubtaskStatus, GetSolutionError>)
        ensures
            match subtask {
                None => r == Err::<SubtaskStatus, GetSolutionError>(
                    GetSolutionError::SubtaskNotFound,
                ),
                Some(s) => if user.admin || user.id == s.creator {
                    r == Ok::<SubtaskStatus, GetSolutionError>(
                        SubtaskStatus { unlocked: true, solved: status.solved, rated: status.rated },
                    )
                } else {
                    r == Err::<SubtaskStatus, GetSolutionError>(GetSolutionError::Forbidden)
                },
            },
    {
        match subtask {
            None => Err(GetSolutionError::SubtaskNotFound),
            Some(s) => {
                if user.sees_solution(s) {
                    Ok(SubtaskStatus { unlocked: true, solved: status.solved, rated: status.rated })
                } else {
                    Err(GetSolutionError::Forbidden)
                }
            },
        }
    }

    /// Decides whether a matching is created.
    ///
    /// In this order: the task must exist; the user must be allowed to
    /// create subtasks in it; in a course task, a user who is no admin must
    /// keep to the limits on xp, coins and fee; the user must not be barred
    /// from creating; the matching must be valid.
    pub fn create_matching<T>(
        &self,
        user: &User,
        task_found: bool,
        can_create: bool,
        course_task: bool,
        ban: ActiveBan<T>,
        data: &CreateMatchingRequest,
    ) -> (r: Result<(), CreateMatchingError<T>>)
        ensures
            !task_found ==> r == Err::<(), CreateMatchingError<T>>(
                CreateMatchingError::TaskNotFound,
            ),
            task_found && !can_create ==> r == Err::<(), CreateMatchingError<T>>(
                CreateMatchingError::Forbidden,
            ),
            task_found && can_create ==> match exceeded(
                self.config.quizzes,
                *user,
                course_task,
                data.xp,
                data.coins,
                data.fee,
            ) {
                Some(RewardLimitExceeded::Xp(max)) => r == Err::<(), CreateMatchingError<T>>(
                    CreateMatchingError::XpLimitExceeded(max),
                ),
                Some(RewardLimitExceeded::Coins(max)) => r == Err::<(), CreateMatchingError<T>>(
                    CreateMatchingError::CoinLimitExceeded(max),
                ),
                Some(RewardLimitExceeded::Fee(max)) => r == Err::<(), CreateMatchingError<T>>(
                    CreateMatchingError::FeeLimitExceeded(max),
                ),
                None => match ban {
                    ActiveBan::Temporary(end) => r == Err::<(), CreateMatchingError<T>>(
                        CreateMatchingError::Banned(Some(end)),
                    ),
                    ActiveBan::Permanent => r == Err::<(), CreateMatchingError<T>>(
                        CreateMatchingError::Banned(None),
                    ),
                    ActiveBan::NotBanned => match matching_fault(
                        data.left@.len(),
                        data.right@.len(),
                        data.solution@,
                    ) {
                        None => r is Ok,
                        Some(fault) => r matches Err(CreateMatchingError::Invalid(e)) && e@
                            == fault,
                    },
                },
            },
    {
        if !task_found {
            return Err(CreateMatchingError::TaskNotFound);
        }
        if !can_create {
            return Err(CreateMatchingError::Forbidden);
        }
        match self.config.quizzes.check(user, course_task, data.xp, data.coins, data.fee) {
            Some(RewardLimitExceeded::Xp(max)) => {
                return Err(CreateMatchingError::XpLimitExceeded(max));
            },
            Some(RewardLimitExceeded::Coins(max)) => {
                return Err(CreateMatchingError::CoinLimitExceeded(max));
            },
            Some(RewardLimitExceeded::Fee(max)) => {
                return Err(CreateMatchingError::FeeLimitExceeded(max));
            },
            None => {},
        }
        match ban {
            ActiveBan::NotBanned => {},
            ActiveBan::Temporary(end) => {
                return Err(CreateMatchingError::Banned(Some(end)));
            },
            ActiveBan::Permanent => {
                return Err(CreateMatchingError::Banned(None));
            },
        }
        match check_matching(data.left.as_slice(), data.right.as_slice(), data.solution.as_slice()) {
            Ok(()) => Ok(()),
            Err(e) => Err(CreateMatchingError::Invalid(e)),
        }
    }

    /// Decides whether a matching is updated: it must exist, the task it is
    /// moved to must exist, and the matching as it will be, with each list
    /// that the update leaves out taken as stored, must be valid.
    pub fn update_matching(
        &self,
        matching: Option<&Matching>,
        task_found: bool,
        data: &UpdateMatchingRequest,
    ) -> (r: Result<(), UpdateMatchingError>)
        ensures
            match matching {
                None => r == Err::<(), UpdateMatchingError>(UpdateMatchingError::SubtaskNotFound),
                Some(stored) => if !task_found {
                    r == Err::<(), UpdateMatchingError>(UpdateMatchingError::TaskNotFound)
                } else {
                    match matching_fault(
                        patched(data.left, stored.left)@.len(),
                        patched(data.right, stored.right)@.len(),
                        patched(data.solution, stored.solution)@,
                    ) {
                        None => r is Ok,
                        Some(fault) => r matches Err(UpdateMatchingError::Invalid(e)) && e@
                            == fault,
                    }
                },
            },
    {
        let stored = match matching {
            None => {
                return Err(UpdateMatchingError::SubtaskNotFound);
            },
            Some(stored) => stored,
        };
        if !task_found {
            return Err(UpdateMatchingError::TaskNotFound);
        }
        let left = data.left.get_new(&stored.left);
        let right = data.right.get_new(&stored.right);
        let solution = data.solution.get_new(&stored.solution);
        match check_matching(left.as_slice(), right.as_slice(), solution.as_slice()) {
            Ok(()) => Ok(()),
            Err(e) => Err(UpdateMatchingError::Invalid(e)),
        }
    }

    /// Decides whether an attempt is taken up, before the user's earlier
    /// attempts are looked at.
    pub fn take_up(
        &self,
        user: &User,
        subtask: Option<&Subtask>,
        has_access: bool,
        answer: &[u8],
        solution: &[u8],
    ) -> (r: Result<(), SolveMatchingError>)
        ensures
            match refused(
                *user,
                match subtask {
                    Some(s) => Some(*s),
                    None => None,
                },
                has_access,
                answer@.len(),
                solution@.len(),
            ) {
                Some(e) => r == Err::<(), SolveMatchingError>(e),
                None => r is Ok,
            },
    {
        let s = match subtask {
            None => {
                return Err(SolveMatchingError::SubtaskNotFound);
            },
            Some(s) => s,
        };
        if !user.sees(s) {
            return Err(SolveMatchingError::SubtaskNotFound);
        }
        if !has_access {
            return Err(SolveMatchingError::NoAccess);
        }
        if answer.len() != solution.len() {
            return Err(SolveMatchingError::SolutionDifferentLength);
        }
        Ok(())
    }

    /// Grades an attempt that was taken up.
    ///
    /// A user who has not solved the matching and has tried before waits
    /// `timeout_incr` seconds for each earlier attempt, counted from the
    /// last one; an attempt made before that is turned away with the
    /// seconds left. Else the answer is held against the solution position
    /// by position: the attempt solves the matching where all agree.
    pub fn solve_matching(
        &self,
        user: &User,
        subtask: &Subtask,
        unlocked_before: bool,
        solved_previously: bool,
        attempts: usize,
        since_last: i64,
        answer: &[u8],
        solution: &[u8],
    ) -> (r: Result<SolvedMatching, SolveMatchingError>)
        requires
            wait(self.config.matchings.timeout_incr, attempts as nat, since_last, solved_previously)
                matches Some(seconds) ==> seconds <= u64::MAX,
        ensures
            match wait(
                self.config.matchings.timeout_incr,
                attempts as nat,
                since_last,
                solved_previously,
            ) {
                Some(seconds) => r == Err::<SolvedMatching, SolveMatchingError>(
                    SolveMatchingError::TooManyRequests(seconds as u64),
                ),
                None => {
                    let correct = count_equal(answer@, solution@);
                    let solved = correct == solution@.len();
                    r == Ok::<SolvedMatching, SolveMatchingError>(
                        SolvedMatching {
                            feedback: SolveMatchingFeedback { solved, correct: correct as usize },
                            settlement: settlement(
                                *user,
                                *subtask,
                                unlocked_before,
                                solved_previously,
                                solved,
                            ),
                        },
                    )
                },
            },
    {
        match wait_before_attempt(
            self.config.matchings.timeout_incr,
            attempts,
            since_last,
            solved_previously,
        ) {
            Some(seconds) => {
                return Err(SolveMatchingError::TooManyRequests(seconds));
            },
            None => {},
        }
        let correct = count_correct(answer, solution);
        let solved = correct == solution.len();
        Ok(
            SolvedMatching {
                feedback: SolveMatchingFeedback { solved, correct },
                settlement: settle(user, subtask, unlocked_before, solved_previously, solved),
            },
        )
    }
}

} // verus!
