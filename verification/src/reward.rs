//! The reward guard: a user is credited for a subtask once, however many
//! of the user's attempts solve it.
//!
//! Whether an attempt is the first to solve a subtask is read from the
//! store, and the solve and the reward are written to it. Between the read
//! and the writes no other attempt on the same subtask may come: the guard
//! of a subtask is held by one attempt at a time.

use crate::subtasks::{settle, settlement, Settlement, Subtask, User};
use std::collections::HashSet;
use vstd::prelude::*;

verus! {

broadcast use vstd::std_specs::hash::group_hash_axioms;

/// The guards of all subtasks: which of them are held.
pub struct RewardGuard {
    held: HashSet<u128>,
}

/// What the store knows of solves and rewards.
pub struct Ledger {
    /// The pairs of a user and a subtask that the user has solved.
    pub solved: Set<(u128, u128)>,
    /// The rewards that were sent, each as the pair of the user and the
    /// subtask, in the order in which they were sent.
    pub rewards: Seq<(u128, u128)>,
}

/// The ledger after one attempt has gone through the guarded section:
/// the ledger is read, the attempt is settled, and what the settlement
/// says is written.
pub open spec fn recorded(ledger: Ledger, user: User, subtask: Subtask, solved: bool) -> Ledger {
    let pair = (user.id, subtask.id);
    match settlement(user, subtask, true, ledger.solved.contains(pair), solved) {
        None => ledger,
        Some(s) => Ledger {
            solved: if s.mark_solved {
                ledger.solved.insert(pair)
            } else {
                ledger.solved
            },
            rewards: if s.send_rewards {
                ledger.rewards.push(pair)
            } else {
                ledger.rewards
            },
        },
    }
}

/// How often a pair of user and subtask stands among the rewards.
pub open spec fn count_of(rewards: Seq<(u128, u128)>, pair: (u128, u128)) -> nat {
    rewards.filter(|p: (u128, u128)| p == pair).len()
}

/// How many rewards were sent to this user for this subtask.
pub open spec fn rewards_sent(ledger: Ledger, user: u128, subtask: u128) -> nat {
    count_of(ledger.rewards, (user, subtask))
}

impl View for RewardGuard {
    type V = Set<u128>;

    closed spec fn view(&self) -> Set<u128> {
        self.held@
    }
}

impl RewardGuard {
    /// Guards of which none is held.
    pub fn new() -> (r: RewardGuard)
        ensures
            r@ == Set::<u128>::empty(),
    {
        RewardGuard { held: HashSet::new() }
    }

    /// Takes the guard of a subtask, if no one holds it. While it is held,
    /// no one else gets it.
    pub fn try_enter(&mut self, subtask: u128) -> (entered: bool)
        ensures
            entered == !old(self)@.contains(subtask),
            final(self)@ == old(self)@.insert(subtask),
    {
        let entered = self.held.insert(subtask);
        entered
    }

    /// Gives the guard of a subtask back.
    pub fn leave(&mut self, subtask: u128)
        ensures
            final(self)@ == old(self)@.remove(subtask),
    {
        self.held.remove(&subtask);
    }

    /// The guarded section: decides what is written for an attempt, from
    /// what the store says of the user's earlier solve. The caller holds
    /// the subtask's guard from the read of `solved_previously` until the
    /// writes are made.
    pub fn settle_attempt(
        &self,
        user: &User,
        subtask: &Subtask,
        unlocked_before: bool,
        solved_previously: bool,
        solved: bool,
    ) -> (r: Option<Settlement>)
        requires
            self@.contains(subtask.id),
        ensures
            r == settlement(*user, *subtask, unlocked_before, solved_previously, solved),
    {
        settle(user, subtask, unlocked_before, solved_previously, solved)
    }
}

/// Counting the rewards of a pair in a ledger to which one reward is added.
proof fn lemma_rewards_pushed(rewards: Seq<(u128, u128)>, added: (u128, u128), pair: (u128, u128))
    ensures
        count_of(rewards.push(added), pair) == count_of(rewards, pair) + if added == pair {
            1nat
        } else {
            0nat
        },
{
    reveal(Seq::filter);
    assert(rewards.push(added).drop_last() =~= rewards);
}

/// A first attempt that solves a subtask marks it solved and sends one
/// reward, none where the user made the subtask. Every later attempt of
/// that user on that subtask, solved or not, leaves the ledger as it is: the
/// subtask is marked once and rewarded once.
pub proof fn lemma_rewarded_once(ledger: Ledger, user: User, subtask: Subtask, again: bool)
    requires
        !ledger.solved.contains((user.id, subtask.id)),
    ensures
        recorded(ledger, user, subtask, true).solved.contains((user.id, subtask.id)),
        rewards_sent(recorded(ledger, user, subtask, true), user.id, subtask.id) == rewards_sent(
            ledger,
            user.id,
            subtask.id,
        ) + if user.id != subtask.creator {
            1nat
        } else {
            0nat
        },
        recorded(recorded(ledger, user, subtask, true), user, subtask, again) == recorded(
            ledger,
            user,
            subtask,
            true,
        ),
{
    let pair = (user.id, subtask.id);
    if user.id != subtask.creator {
        lemma_rewards_pushed(ledger.rewards, pair, pair);
    }
}

/// An attempt on one subtask sends no reward for another pair of user and
/// subtask, and takes no solve away.
pub proof fn lemma_others_untouched(
    ledger: Ledger,
    user: User,
    subtask: Subtask,
    solved: bool,
    other: (u128, u128),
)
    requires
        other != (user.id, subtask.id),
    ensures
        rewards_sent(recorded(ledger, user, subtask, solved), other.0, other.1) == rewards_sent(
            ledger,
            other.0,
            other.1,
        ),
        recorded(ledger, user, subtask, solved).solved.contains(other) == ledger.solved.contains(
            other,
        ),
{
    lemma_rewards_pushed(ledger.rewards, (user.id, subtask.id), other);
}

} // verus!
