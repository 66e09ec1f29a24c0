//! Decision logic of a service that grades programs against generated
//! tests.
//!
//! A coding challenge comes with an evaluator, a program that generates the
//! inputs of its tests from seeds and judges the outputs that solutions
//! give. The library holds what the service decides around it:
//!
//! - [`judge`]: what is asked of the sandbox that runs evaluators and
//!   submissions, and what its answers mean;
//! - [`cache`]: how long an answer of the evaluator is kept, and who
//!   computes one that is missing;
//! - [`limiter`]: how many requests are at the sandbox at one time;
//! - [`selfcheck`] and [`seeds`]: the check of a challenge against its own
//!   reference solution, and the seeds it is made on;
//! - [`reward`]: that a user is rewarded for a subtask once;
//! - [`coding_challenges`], [`matching`], [`multiple_choice`], [`subtasks`],
//!   [`schemas`] and [`patch`]: what the endpoints decide.
//!
//! Nothing here waits or talks to the outside: every function takes what
//! was read and gives back what is to be done.

pub mod cache;
pub mod coding_challenges;
pub mod judge;
pub mod limiter;
pub mod matching;
pub mod multiple_choice;
pub mod patch;
pub mod reward;
pub mod schemas;
pub mod seeds;
pub mod selfcheck;
pub mod subtasks;
