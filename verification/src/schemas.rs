//! The shapes of what the coding-challenge endpoints take and give, with
//! the bounds that a request has to keep.

use crate::coding_challenges::StoredChallenge;
use crate::subtasks::Subtask;
use poem_ext::patch_value::PatchValue;
use vstd::prelude::*;
use vstd::string::*;

verus! {

/// The most characters that an example's input, output or explanation may have.
pub const MAX_EXAMPLE_TEXT: usize = 4096;

/// The most characters that a challenge's description may have.
pub const MAX_DESCRIPTION: usize = 16384;

/// The most characters that an evaluator may have.
pub const MAX_EVALUATOR: usize = 65536;

/// The most examples that a new challenge may bring.
pub const MAX_EXAMPLES: usize = 8;

/// A coding challenge as it is shown. `T` is the time of its creation,
/// which is carried and not read.
#[derive(Debug, Clone, PartialEq, Eq)]
pub struct CodingChallenge<T> {
    pub id: u128,
    pub task_id: u128,
    pub creator: u128,
    pub creation_timestamp: T,
    pub xp: i64,
    pub coins: i64,
    pub description: String,
    /// Milliseconds a solution may run.
    pub time_limit: u16,
    /// Megabytes of memory a solution may use.
    pub memory_limit: u16,
}

/// A new example.
#[derive(Debug, Clone, PartialEq, Eq)]
pub struct CreateExampleRequest {
    pub input: String,
    pub output: String,
    pub explanation: Option<String>,
}

/// An update of an example. An absent field is left as it is.
#[derive(Debug, PartialEq, Eq)]
pub struct UpdateExampleRequest {
    pub input: PatchValue<String>,
    pub output: PatchValue<String>,
    pub explanation: PatchValue<Option<String>>,
}

/// A new coding challenge.
#[derive(Debug, Clone, PartialEq, Eq)]
pub struct CreateCodingChallengeRequest {
    pub xp: i64,
    pub coins: i64,
    pub description: String,
    pub time_limit: u64,
    pub memory_limit: u64,
    pub examples: Vec<CreateExampleRequest>,
    pub evaluator: String,
}

/// An update of a coding challenge. An absent field is left as it is.
#[derive(Debug, PartialEq, Eq)]
pub struct UpdateCodingChallengeRequest {
    pub task_id: PatchValue<u128>,
    pub xp: PatchValue<i64>,
    pub coins: PatchValue<i64>,
    pub description: PatchValue<String>,
    pub time_limit: PatchValue<u64>,
    pub memory_limit: PatchValue<u64>,
    pub evaluator: PatchValue<String>,
}

/// An update of what a subtask costs.
#[derive(Debug, PartialEq, Eq)]
pub struct UpdateSubtaskRequest {
    pub fee: PatchValue<u64>,
}

/// A text has at most `max` characters.
pub open spec fn fits(text: Seq<char>, max: nat) -> bool {
    text.len() <= max
}

/// An optional text is absent or has at most `max` characters.
pub open spec fn fits_if_given(text: Option<String>, max: nat) -> bool {
    text matches Some(t) ==> fits(t@, max)
}

/// The text that an update brings, if it brings one, has at most `max` characters.
pub open spec fn fits_if_set(text: PatchValue<String>, max: nat) -> bool {
    text matches PatchValue::Set(t) ==> fits(t@, max)
}

/// The bounds that a new example keeps: none of its texts is longer than
/// [`MAX_EXAMPLE_TEXT`].
pub open spec fn example_is_valid(e: CreateExampleRequest) -> bool {
    &&& fits(e.input@, MAX_EXAMPLE_TEXT as nat)
    &&& fits(e.output@, MAX_EXAMPLE_TEXT as nat)
    &&& fits_if_given(e.explanation, MAX_EXAMPLE_TEXT as nat)
}

/// Whether a text has at most `max` characters.
pub fn text_fits(text: &String, max: usize) -> (r: bool)
    ensures
        r == fits(text@, max as nat),
{
    text.as_str().unicode_len() <= max
}

impl CreateExampleRequest {
    /// Whether the example keeps its bounds.
    pub fn is_valid(&self) -> (r: bool)
        ensures
            r == example_is_valid(*self),
    {
        text_fits(&self.input, MAX_EXAMPLE_TEXT) && text_fits(&self.output, MAX_EXAMPLE_TEXT)
            && match &self.explanation {
            Some(t) => text_fits(t, MAX_EXAMPLE_TEXT),
            None => true,
        }
    }
}

impl UpdateExampleRequest {
    /// Whether the update keeps the bounds of an example: no text that it
    /// brings is longer than [`MAX_EXAMPLE_TEXT`].
    pub fn is_valid(&self) -> (r: bool)
        ensures
            r == {
                &&& fits_if_set(self.input, MAX_EXAMPLE_TEXT as nat)
                &&& fits_if_set(self.output, MAX_EXAMPLE_TEXT as nat)
                &&& (self.explanation matches PatchValue::Set(e) ==> fits_if_given(
                    e,
                    MAX_EXAMPLE_TEXT as nat,
                ))
            },
    {
        let input = match &self.input {
            PatchValue::Set(t) => text_fits(t, MAX_EXAMPLE_TEXT),
            PatchValue::Unchanged => true,
        };
        let output = match &self.output {
            PatchValue::Set(t) => text_fits(t, MAX_EXAMPLE_TEXT),
            PatchValue::Unchanged => true,
        };
        let explanation = match &self.explanation {
            PatchValue::Set(Some(t)) => text_fits(t, MAX_EXAMPLE_TEXT),
            PatchValue::Set(None) => true,
            PatchValue::Unchanged => true,
        };
        input && output && explanation
    }
}

impl CreateCodingChallengeRequest {
    /// Whether the request keeps its bounds: the description has at most
    /// [`MAX_DESCRIPTION`] characters, the evaluator at most
    /// [`MAX_EVALUATOR`], and there are at most [`MAX_EXAMPLES`] examples,
    /// each of them valid.
    pub fn is_valid(&self) -> (r: bool)
        ensures
            r == {
                &&& fits(self.description@, MAX_DESCRIPTION as nat)
                &&& fits(self.evaluator@, MAX_EVALUATOR as nat)
                &&& self.examples@.len() <= MAX_EXAMPLES
                &&& forall|i: int|
                    0 <= i < self.examples@.len() ==> example_is_valid(#[trigger] self.examples@[i])
            },
    {
        if !text_fits(&self.description, MAX_DESCRIPTION) {
            return false;
        }
        if !text_fits(&self.evaluator, MAX_EVALUATOR) {
            return false;
        }
        if self.examples.len() > MAX_EXAMPLES {
            return false;
        }
        let mut i: usize = 0;
        while i < self.examples.len()
            invariant
                i <= self.examples@.len(),
                forall|k: int| 0 <= k < i ==> example_is_valid(#[trigger] self.examples@[k]),
            decreases self.examples@.len() - i,
        {
            if !self.examples[i].is_valid() {
                return false;
            }
            i += 1;
        }
        true
    }
}

impl UpdateCodingChallengeRequest {
    /// Whether the update keeps the bounds of a challenge: a description
    /// that it brings has at most [`MAX_DESCRIPTION`] characters, an
    /// evaluator at most [`MAX_EVALUATOR`].
    pub fn is_valid(&self) -> (r: bool)
        ensures
            r == (fits_if_set(self.description, MAX_DESCRIPTION as nat) && fits_if_set(
                self.evaluator,
                MAX_EVALUATOR as nat,
            )),
    {
        let description = match &self.description {
            PatchValue::Set(t) => text_fits(t, MAX_DESCRIPTION),
            PatchValue::Unchanged => true,
        };
        let evaluator = match &self.evaluator {
            PatchValue::Set(t) => text_fits(t, MAX_EVALUATOR),
            PatchValue::Unchanged => true,
        };
        description && evaluator
    }
}

impl<T> CodingChallenge<T> {
    /// The challenge as it is shown, from what is stored of it and of its
    /// subtask. The limits are shown in 16 bits, cut to that width.
    pub fn from(
        cc: &StoredChallenge,
        description: String,
        subtask: &Subtask,
        creation_timestamp: T,
    ) -> (r: Self)
        ensures
            r == (CodingChallenge {
                id: subtask.id,
                task_id: subtask.task_id,
                creator: subtask.creator,
                creation_timestamp,
                xp: subtask.xp,
                coins: subtask.coins,
                description,
                time_limit: cc.time_limit as u16,
                memory_limit: cc.memory_limit as u16,
            }),
    {
        CodingChallenge {
            id: subtask.id,
            task_id: subtask.task_id,
            creator: subtask.creator,
            creation_timestamp,
            xp: subtask.xp,
            coins: subtask.coins,
            description,
            time_limit: #[verifier::truncate]
            (cc.time_limit as u16),
            memory_limit: #[verifier::truncate]
            (cc.memory_limit as u16),
        }
    }
}

} // verus!
