//! The limiter: a pool of permits that bounds how many requests are at the
//! sandbox at one time. A caller needs a permit before it asks the sandbox
//! and gives it back when the sandbox has answered, whatever the answer.
//! With no permit free, callers queue and are served in the order in which
//! they came.

use vstd::prelude::*;

verus! {

/// A pool of permits with a queue of callers who wait for one.
#[derive(Debug, Clone, PartialEq, Eq)]
pub struct Limiter {
    capacity: usize,
    in_use: usize,
    waiting: Vec<u64>,
}

/// What a limiter holds: its size, the permits that are out, and the
/// callers that wait, the one that came first at the front.
pub struct LimiterState {
    pub capacity: nat,
    pub in_use: nat,
    pub waiting: Seq<u64>,
}

/// What a caller who asked for a permit is told.
#[derive(Debug, Clone, Copy, PartialEq, Eq, Structural)]
pub enum Acquire {
    /// The caller has a permit.
    Granted,
    /// No permit is free: the caller waits in the queue.
    Queued,
}

/// What happens at a limiter.
pub enum LimiterEvent {
    /// The caller with this ticket asks for a permit.
    Acquire(u64),
    /// A caller that holds a permit gives it back.
    Release,
}

/// The limiter after a caller has asked for a permit.
pub open spec fn acquired(s: LimiterState, ticket: u64) -> LimiterState {
    if s.in_use < s.capacity {
        LimiterState { in_use: s.in_use + 1, ..s }
    } else {
        LimiterState { waiting: s.waiting.push(ticket), ..s }
    }
}

/// The limiter after a permit was given back: it goes to the caller that
/// has waited longest, and is free again where none waits.
pub open spec fn released(s: LimiterState) -> LimiterState {
    if s.waiting.len() > 0 {
        LimiterState { waiting: s.waiting.drop_first(), ..s }
    } else if s.in_use > 0 {
        LimiterState { in_use: (s.in_use - 1) as nat, ..s }
    } else {
        s
    }
}

/// The limiter after a sequence of events.
pub open spec fn after(s: LimiterState, events: Seq<LimiterEvent>) -> LimiterState
    decreases events.len(),
{
    if events.len() == 0 {
        s
    } else {
        let before = after(s, events.drop_last());
        match events.last() {
            LimiterEvent::Acquire(ticket) => acquired(before, ticket),
            LimiterEvent::Release => released(before),
        }
    }
}

/// A limiter in order: no more permits are out than it has, and callers
/// wait only while all permits are out.
pub open spec fn in_order(s: LimiterState) -> bool {
    &&& s.in_use <= s.capacity
    &&& s.waiting.len() > 0 ==> s.in_use == s.capacity
}

impl View for Limiter {
    type V = LimiterState;

    closed spec fn view(&self) -> LimiterState {
        LimiterState {
            capacity: self.capacity as nat,
            in_use: self.in_use as nat,
            waiting: self.waiting@,
        }
    }
}

impl Limiter {
    /// A limiter with `capacity` permits, all of them free.
    pub fn new(capacity: usize) -> (r: Limiter)
        ensures
            r@ == (LimiterState { capacity: capacity as nat, in_use: 0, waiting: Seq::empty() }),
    {
        Limiter { capacity, in_use: 0, waiting: Vec::new() }
    }

    /// How many permits are out.
    pub fn in_use(&self) -> (r: usize)
        ensures
            r == self@.in_use,
    {
        self.in_use
    }

    /// How many permits the limiter has.
    pub fn capacity(&self) -> (r: usize)
        ensures
            r == self@.capacity,
    {
        self.capacity
    }

    /// How many callers wait for a permit.
    pub fn waiting(&self) -> (r: usize)
        ensures
            r == self@.waiting.len(),
    {
        self.waiting.len()
    }

    /// The caller with this ticket asks for a permit. The caller gets one
    /// if one is free, and else waits behind those that wait already.
    pub fn acquire(&mut self, ticket: u64) -> (r: Acquire)
        requires
            in_order(old(self)@),
        ensures
            final(self)@ == acquired(old(self)@, ticket),
            in_order(final(self)@),
            r == (if old(self)@.in_use < old(self)@.capacity {
                Acquire::Granted
            } else {
                Acquire::Queued
            }),
    {
        if self.in_use < self.capacity {
            self.in_use += 1;
            Acquire::Granted
        } else {
            self.waiting.push(ticket);
            Acquire::Queued
        }
    }

    /// A caller gives its permit back. The permit goes to the caller that
    /// has waited longest, whose ticket is returned; with no caller waiting
    /// the permit is free again.
    pub fn release(&mut self) -> (r: Option<u64>)
        requires
            in_order(old(self)@),
        ensures
            final(self)@ == released(old(self)@),
            in_order(final(self)@),
            r == (if old(self)@.waiting.len() > 0 {
                Some(old(self)@.waiting[0])
            } else {
                None
            }),
    {
        if self.waiting.len() > 0 {
            let next = self.waiting.remove(0);
            Some(next)
        } else {
            if self.in_use > 0 {
                self.in_use -= 1;
            }
            None
        }
    }
}

/// Whatever callers ask for permits and give them back, and in whatever
/// order, a limiter that starts with all its permits free never has more
/// permits out than it has.
pub proof fn lemma_never_more_than_capacity(capacity: nat, events: Seq<LimiterEvent>)
    ensures
        in_order(
            after(LimiterState { capacity, in_use: 0, waiting: Seq::empty() }, events),
        ),
        after(LimiterState { capacity, in_use: 0, waiting: Seq::empty() }, events).capacity
            == capacity,
    decreases events.len(),
{
    if events.len() > 0 {
        lemma_never_more_than_capacity(capacity, events.drop_last());
    }
}

} // verus!
