//! The result cache: what the evaluator answered is kept for a time under
//! a key made of the evaluator's identity and the operation asked, so that
//! the sandbox is not asked the same thing again.
//!
//! The cache is a keyed store and decides three things: whether a value
//! under a key is still good, who computes a value that is missing, and how
//! long a computed value is kept. While one caller computes the value of a
//! key, the others wait for it.

use crate::judge::{EvaluatorRequest, Operation};
use vstd::prelude::*;

verus! {

/// The key of a cached result: the evaluator's environment and exact text,
/// and the operation with its arguments.
#[derive(Debug, Clone, PartialEq, Eq)]
pub struct CacheKey {
    pub environment: String,
    pub source: String,
    pub operation: Operation,
}

/// The mathematical content of an [`Operation`].
pub enum OperationView {
    ListExamples,
    Generate { seed: Seq<char> },
    Check { seed: Seq<char>, input: Seq<char>, output: Seq<char> },
}

/// The mathematical content of a [`CacheKey`].
pub struct KeyView {
    pub environment: Seq<char>,
    pub source: Seq<char>,
    pub operation: OperationView,
}

/// What the cache holds under a key.
#[derive(Debug, Clone, PartialEq, Eq)]
pub enum Slot<V> {
    /// A caller is computing the value.
    InFlight,
    /// The value, good before the time `expires`.
    Ready { value: V, expires: u64 },
}

/// What a caller who wants the value of a key has to do.
#[derive(Debug, Clone, Copy, PartialEq, Eq, Structural)]
pub enum Claim {
    /// The value is there and good: take it.
    Hit,
    /// Another caller is computing the value: wait for it.
    Wait,
    /// The value is missing or stale: compute it, then hand it in.
    Compute,
}

/// A key with what is held under it.
struct Entry<V> {
    key: CacheKey,
    slot: Slot<V>,
}

/// A store of results with a time to live.
pub struct ResultCache<V> {
    ttl: u64,
    entries: Vec<Entry<V>>,
}

/// The content of an operation.
pub open spec fn operation_view(operation: Operation) -> OperationView {
    match operation {
        Operation::ListExamples => OperationView::ListExamples,
        Operation::Generate { seed } => OperationView::Generate { seed: seed@ },
        Operation::Check { seed, input, output } => OperationView::Check {
            seed: seed@,
            input: input@,
            output: output@,
        },
    }
}

impl View for CacheKey {
    type V = KeyView;

    open spec fn view(&self) -> KeyView {
        KeyView {
            environment: self.environment@,
            source: self.source@,
            operation: operation_view(self.operation),
        }
    }
}

/// The key under which the answer to a request is kept: the request
/// without its limits.
pub open spec fn key_of(request: EvaluatorRequest) -> KeyView {
    KeyView {
        environment: request.environment@,
        source: request.source@,
        operation: operation_view(request.operation),
    }
}

/// Whether what is held is a value that is good at the time `now`.
pub open spec fn is_fresh<V>(slot: Slot<V>, now: u64) -> bool {
    slot matches Slot::Ready { expires, .. } && now < expires
}

/// The time at which a value handed in at `now` stops being good.
pub open spec fn expiry(now: u64, ttl: u64) -> u64 {
    if now + ttl <= u64::MAX {
        (now + ttl) as u64
    } else {
        u64::MAX
    }
}

/// The value that a store gives for a key at the time `now`.
pub open spec fn cached<V>(store: Map<KeyView, Slot<V>>, key: KeyView, now: u64) -> Option<V> {
    if store.contains_key(key) && is_fresh(store[key], now) {
        Some(store[key]->value)
    } else {
        None
    }
}

/// What a caller who wants the value of `key` at the time `now` has to do.
pub open spec fn claim_of<V>(store: Map<KeyView, Slot<V>>, key: KeyView, now: u64) -> Claim {
    if store.contains_key(key) && is_fresh(store[key], now) {
        Claim::Hit
    } else if store.contains_key(key) && store[key] is InFlight {
        Claim::Wait
    } else {
        Claim::Compute
    }
}

/// The store after a caller has asked for the value of `key`: the caller
/// who is told to compute is noted as computing.
pub open spec fn after_claim<V>(store: Map<KeyView, Slot<V>>, key: KeyView, now: u64) -> Map<
    KeyView,
    Slot<V>,
> {
    if claim_of(store, key, now) == Claim::Compute {
        store.insert(key, Slot::InFlight)
    } else {
        store
    }
}

/// The store after a computed value has been handed in at the time `now`.
pub open spec fn after_complete<V>(
    store: Map<KeyView, Slot<V>>,
    key: KeyView,
    value: V,
    now: u64,
    ttl: u64,
) -> Map<KeyView, Slot<V>> {
    store.insert(key, Slot::Ready { value, expires: expiry(now, ttl) })
}

/// Whether what is held is still of use at the time `now`: a value that is
/// good, or the note that a caller is computing one.
pub open spec fn is_kept<V>(slot: Slot<V>, now: u64) -> bool {
    slot is InFlight || is_fresh(slot, now)
}

/// The store without the values that are stale at the time `now`.
pub open spec fn after_purge<V>(store: Map<KeyView, Slot<V>>, now: u64) -> Map<KeyView, Slot<V>> {
    store.restrict(Set::new(|key: KeyView| store.contains_key(key) && is_kept(store[key], now)))
}

/// What callers who ask for the value of `key` at the times given, one
/// after the other and with no value handed in between, are told to do.
pub open spec fn claims<V>(store: Map<KeyView, Slot<V>>, key: KeyView, times: Seq<u64>) -> Seq<
    Claim,
>
    decreases times.len(),
{
    if times.len() == 0 {
        Seq::empty()
    } else {
        seq![claim_of(store, key, times[0])] + claims(
            after_claim(store, key, times[0]),
            key,
            times.drop_first(),
        )
    }
}

/// How many of the callers are told to compute.
pub open spec fn computes(told: Seq<Claim>) -> nat
    decreases told.len(),
{
    if told.len() == 0 {
        0
    } else {
        computes(told.drop_first()) + if told[0] == Claim::Compute {
            1nat
        } else {
            0nat
        }
    }
}

/// Whether two operations are the same.
pub fn same_operation(a: &Operation, b: &Operation) -> (r: bool)
    ensures
        r == (operation_view(*a) == operation_view(*b)),
{
    match (a, b) {
        (Operation::ListExamples, Operation::ListExamples) => true,
        (Operation::Generate { seed: s }, Operation::Generate { seed: t }) => {
            let r = *s == *t;
            r
        },
        (
            Operation::Check { seed: s, input: i, output: o },
            Operation::Check { seed: t, input: j, output: p },
        ) => {
            let r = *s == *t && *i == *j && *o == *p;
            r
        },
        _ => false,
    }
}

impl CacheKey {
    /// The key under which the answer to a request is kept.
    ///
    /// It is made of the evaluator's environment and text and of the
    /// operation, and of nothing else: requests for the same operation on
    /// evaluators with the same environment and text have the same key,
    /// and any difference in these gives another key.
    pub fn of(request: &EvaluatorRequest) -> (key: CacheKey)
        ensures
            key@ == key_of(*request),
    {
        CacheKey {
            environment: request.environment.clone(),
            source: request.source.clone(),
            operation: copy_operation(&request.operation),
        }
    }

    /// Whether two keys are the same.
    pub fn same(&self, other: &CacheKey) -> (r: bool)
        ensures
            r == (self@ == other@),
    {
        let r = self.environment == other.environment && self.source == other.source
            && same_operation(&self.operation, &other.operation);
        r
    }
}

/// A copy of an operation.
pub fn copy_operation(operation: &Operation) -> (r: Operation)
    ensures
        r == *operation,
{
    match operation {
        Operation::ListExamples => Operation::ListExamples,
        Operation::Generate { seed } => Operation::Generate { seed: seed.clone() },
        Operation::Check { seed, input, output } => Operation::Check {
            seed: seed.clone(),
            input: input.clone(),
            output: output.clone(),
        },
    }
}

impl<V> ResultCache<V> {
    /// The cache is well formed: no two entries have the same key.
    pub closed spec fn wf(&self) -> bool {
        forall|i: int, j: int|
            0 <= i < j < self.entries@.len() ==> (#[trigger] self.entries@[i]).key@
                != (#[trigger] self.entries@[j]).key@
    }

    /// The time that a value is kept for.
    pub closed spec fn ttl(&self) -> u64 {
        self.ttl
    }

    /// Whether an entry has this key.
    spec fn holds(&self, key: KeyView) -> bool {
        exists|i: int| 0 <= i < self.entries@.len() && (#[trigger] self.entries@[i]).key@ == key
    }

    /// The position of the entry with this key.
    spec fn position(&self, key: KeyView) -> int {
        choose|i: int| 0 <= i < self.entries@.len() && (#[trigger] self.entries@[i]).key@ == key
    }

    /// What the cache holds, by key.
    pub closed spec fn view(&self) -> Map<KeyView, Slot<V>> {
        Map::new(|key: KeyView| self.holds(key), |key: KeyView| self.entries@[self.position(key)].slot)
    }

    /// An empty cache that keeps a value for `ttl` units of time.
    pub fn new(ttl: u64) -> (cache: Self)
        ensures
            cache.wf(),
            cache@ == Map::<KeyView, Slot<V>>::empty(),
            cache.ttl() == ttl,
    {
        let cache = ResultCache { ttl, entries: Vec::new() };
        cache
    }

    /// The position of the entry with this key, if there is one.
    fn find(&self, key: &CacheKey) -> (r: Option<usize>)
        requires
            self.wf(),
        ensures
            match r {
                Some(i) => i < self.entries@.len() && self.entries@[i as int].key@ == key@
                    && self.holds(key@) && self.position(key@) == i,
                None => !self.holds(key@),
            },
    {
        let mut i: usize = 0;
        while i < self.entries.len()
            invariant
                self.wf(),
                i <= self.entries@.len(),
                forall|k: int| 0 <= k < i ==> (#[trigger] self.entries@[k]).key@ != key@,
            decreases self.entries@.len() - i,
        {
            if self.entries[i].key.same(key) {
                return Some(i);
            }
            i += 1;
        }
        None
    }

    /// The value under `key`, if one is there that is good at the time `now`.
    pub fn lookup(&self, key: &CacheKey, now: u64) -> (r: Option<&V>)
        requires
            self.wf(),
        ensures
            match cached(self@, key@, now) {
                Some(value) => r matches Some(v) && *v == value,
                None => r is None,
            },
    {
        match self.find(key) {
            None => None,
            Some(i) => match &self.entries[i].slot {
                Slot::Ready { value, expires } => if now < *expires {
                    Some(value)
                } else {
                    None
                },
                Slot::InFlight => None,
            },
        }
    }

    /// Tells a caller who wants the value of `key` at the time `now` what
    /// to do. A caller who is told to compute is noted as computing, so
    /// that until the value is handed in every other caller is told to wait.
    pub fn claim(&mut self, key: &CacheKey, now: u64) -> (r: Claim)
        requires
            old(self).wf(),
        ensures
            final(self).wf(),
            r == claim_of(old(self)@, key@, now),
            final(self)@ == after_claim(old(self)@, key@, now),
            final(self).ttl() == old(self).ttl(),
    {
        match self.find(key) {
            Some(i) => {
                let fresh = match &self.entries[i].slot {
                    Slot::Ready { expires, .. } => now < *expires,
                    Slot::InFlight => false,
                };
                if fresh {
                    return Claim::Hit;
                }
                let waiting = match &self.entries[i].slot {
                    Slot::InFlight => true,
                    _ => false,
                };
                if waiting {
                    return Claim::Wait;
                }
                let ghost before = *self;
                let entry = Entry { key: copy_key(key), slot: Slot::InFlight };
                self.entries.set(i, entry);
                proof {
                    lemma_replaced(before, *self, i as int, key@, Slot::InFlight);
                }
                Claim::Compute
            },
            None => {
                let ghost before = *self;
                self.entries.push(Entry { key: copy_key(key), slot: Slot::InFlight });
                proof {
                    lemma_added(before, *self, key@, Slot::InFlight);
                }
                Claim::Compute
            },
        }
    }

    /// Hands in the value computed for `key` at the time `now`. It is kept
    /// until the time to live has passed, whatever it is: an answer and a
    /// failure are kept alike.
    pub fn complete(&mut self, key: &CacheKey, value: V, now: u64)
        requires
            old(self).wf(),
        ensures
            final(self).wf(),
            final(self)@ == after_complete(old(self)@, key@, value, now, old(self).ttl()),
            final(self).ttl() == old(self).ttl(),
    {
        let expires = if now <= u64::MAX - self.ttl {
            now + self.ttl
        } else {
            u64::MAX
        };
        let ghost before = *self;
        let slot = Slot::Ready { value, expires };
        match self.find(key) {
            Some(i) => {
                self.entries.set(i, Entry { key: copy_key(key), slot });
                proof {
                    lemma_replaced(before, *self, i as int, key@, slot);
                }
            },
            None => {
                self.entries.push(Entry { key: copy_key(key), slot });
                proof {
                    lemma_added(before, *self, key@, slot);
                }
            },
        }
    }
}

impl<V> ResultCache<V> {
    /// Drops the values that are stale at the time `now`, so that the cache
    /// holds no more than what is of use. What the cache answers from then
    /// on is what it would have answered without this.
    pub fn purge(&mut self, now: u64)
        requires
            old(self).wf(),
        ensures
            final(self).wf(),
            final(self)@ == after_purge(old(self)@, now),
            final(self).ttl() == old(self).ttl(),
    {
        let ghost before = *self;
        let mut i: usize = 0;
        while i < self.entries.len()
            invariant
                before.wf(),
                self.wf(),
                self.ttl == before.ttl,
                i <= self.entries@.len(),
                forall|j: int| 0 <= j < i ==> is_kept((#[trigger] self.entries@[j]).slot, now),
                forall|j: int|
                    0 <= j < self.entries@.len() ==> before.entries@.contains(
                        #[trigger] self.entries@[j],
                    ),
                forall|p: int|
                    0 <= p < before.entries@.len() && is_kept(before.entries@[p].slot, now)
                        ==> self.entries@.contains(#[trigger] before.entries@[p]),
            decreases self.entries@.len() - i,
        {
            let keep = match &self.entries[i].slot {
                Slot::InFlight => true,
                Slot::Ready { expires, .. } => now < *expires,
            };
            if keep {
                i += 1;
            } else {
                let ghost current = self.entries@;
                self.entries.remove(i);
                proof {
                    let next = self.entries@;
                    assert forall|p: int|
                        0 <= p < before.entries@.len() && is_kept(
                            before.entries@[p].slot,
                            now,
                        ) implies next.contains(#[trigger] before.entries@[p]) by {
                        let e = before.entries@[p];
                        let q = choose|q: int| 0 <= q < current.len() && current[q] == e;
                        let q1 = if q < i { q } else { q - 1 };
                        assert(next[q1] == e);
                    }
                }
            }
        }
    }
}

/// A copy of a key.
fn copy_key(key: &CacheKey) -> (r: CacheKey)
    ensures
        r@ == key@,
{
    CacheKey {
        environment: key.environment.clone(),
        source: key.source.clone(),
        operation: copy_operation(&key.operation),
    }
}

/// Replacing the entry of a key changes what the cache holds under that
/// key and nothing else.
proof fn lemma_replaced<V>(
    before: ResultCache<V>,
    after: ResultCache<V>,
    i: int,
    key: KeyView,
    slot: Slot<V>,
)
    requires
        before.wf(),
        0 <= i < before.entries@.len(),
        before.entries@[i].key@ == key,
        after.entries@.len() == before.entries@.len(),
        after.entries@[i].key@ == key,
        after.entries@[i].slot == slot,
        forall|k: int|
            0 <= k < before.entries@.len() && k != i ==> after.entries@[k] == before.entries@[k],
    ensures
        after.wf(),
        after@ == before@.insert(key, slot),
{
}

/// Adding an entry for a key that has none changes what the cache holds
/// under that key and nothing else.
proof fn lemma_added<V>(before: ResultCache<V>, after: ResultCache<V>, key: KeyView, slot: Slot<V>)
    requires
        before.wf(),
        !before.holds(key),
        after.entries@.len() == before.entries@.len() + 1,
        after.entries@.last().key@ == key,
        after.entries@.last().slot == slot,
        forall|k: int| 0 <= k < before.entries@.len() ==> after.entries@[k] == before.entries@[k],
    ensures
        after.wf(),
        after@ == before@.insert(key, slot),
{
    assert(after.entries@[before.entries@.len() as int].key@ == key);
}

/// Dropping the stale values changes nothing that a caller sees from then
/// on: the cache gives the same values and tells callers the same.
pub proof fn lemma_purge_is_unseen<V>(
    store: Map<KeyView, Slot<V>>,
    now: u64,
    key: KeyView,
    later: u64,
)
    requires
        now <= later,
    ensures
        cached(after_purge(store, now), key, later) == cached(store, key, later),
        claim_of(after_purge(store, now), key, later) == claim_of(store, key, later),
{
}

/// Callers who ask for the value under one key while none is handed in
/// are all told the same once one of them computes: they wait. So at most
/// one of them is told to compute, and exactly one where the first finds
/// neither a good value nor a caller computing.
pub proof fn lemma_single_flight<V>(store: Map<KeyView, Slot<V>>, key: KeyView, times: Seq<u64>)
    ensures
        computes(claims(store, key, times)) <= 1,
        times.len() > 0 && claim_of(store, key, times[0]) == Claim::Compute ==> computes(
            claims(store, key, times),
        ) == 1,
        store.contains_key(key) && store[key] is InFlight ==> computes(claims(store, key, times))
            == 0,
    decreases times.len(),
{
    if times.len() > 0 {
        let next = after_claim(store, key, times[0]);
        assert(claims(store, key, times).drop_first() =~= claims(next, key, times.drop_first()));
        lemma_single_flight(next, key, times.drop_first());
    }
}

/// A value that was handed in is what the cache gives under its key at
/// every time before it expires, whatever is claimed in between.
pub proof fn lemma_cached_value_is_returned<V>(
    store: Map<KeyView, Slot<V>>,
    key: KeyView,
    value: V,
    now: u64,
    ttl: u64,
    later: u64,
)
    requires
        later < expiry(now, ttl),
    ensures
        cached(after_complete(store, key, value, now, ttl), key, later) == Some(value),
        claim_of(after_complete(store, key, value, now, ttl), key, later) == Claim::Hit,
        after_claim(after_complete(store, key, value, now, ttl), key, later) == after_complete(
            store,
            key,
            value,
            now,
            ttl,
        ),
{
}

/// The key of a request is made of the evaluator's environment and text
/// and of the operation: two requests have the same key exactly where they
/// agree in these, whatever their limits.
pub proof fn lemma_key_is_the_content(a: EvaluatorRequest, b: EvaluatorRequest)
    ensures
        key_of(a) == key_of(b) <==> (a.environment@ == b.environment@ && a.source@ == b.source@
            && operation_view(a.operation) == operation_view(b.operation)),
{
}

/// Asking twice for the input of a seed gives the same input. The two
/// requests have one key, whatever their limits, so once the first answer
/// is handed in, the second caller finds it, unchanged, for as long as it
/// is kept.
pub proof fn lemma_generate_twice_gives_the_same<V>(
    store: Map<KeyView, Slot<V>>,
    first: EvaluatorRequest,
    second: EvaluatorRequest,
    value: V,
    now: u64,
    ttl: u64,
    later: u64,
)
    requires
        first.environment@ == second.environment@,
        first.source@ == second.source@,
        first.operation is Generate,
        second.operation is Generate,
        first.operation->Generate_seed@ == second.operation->Generate_seed@,
        later < expiry(now, ttl),
    ensures
        key_of(first) == key_of(second),
        cached(after_complete(store, key_of(first), value, now, ttl), key_of(second), later)
            == Some(value),
{
}

} // verus!
