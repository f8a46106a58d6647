//! The latest-value channel: a single slot holding the most recently
//! published frame result plus a generation counter, and per-connection
//! subscriptions that track the last generation they observed.
//!
//! Subscribers never see a backlog: a slow subscriber skips generations, it
//! never delays the producer.  The slot starts out holding a sentinel that no
//! subscriber can ever receive.

use vstd::prelude::*;

use crate::frame::{frame_result_eqv, FrameResult};

verus! {

/// What the channel slot holds: the startup sentinel (before any publish),
/// or the most recently published frame result.
pub enum SlotValue {
    /// Placeholder present before the first publish; never delivered.
    Sentinel,
    /// The most recent frame result.
    Published(FrameResult),
}

/// The process-wide single slot: exactly one value and its generation.
/// Created once at startup; overwritten once per tick by the producer;
/// read-only for subscribers.
pub struct Channel {
    /// The most recently published value, or the startup sentinel.
    pub slot: SlotValue,
    /// How many publishes have happened so far.
    pub generation: u64,
}

/// A per-connection handle into the channel: remembers the last generation
/// this subscriber observed, so no generation is ever delivered twice.
#[derive(PartialEq, Eq, Structural, Clone, Copy, Debug)]
pub struct Subscription {
    /// The generation of the last value this subscription observed.
    pub last_seen: u64,
}

impl Subscription {
    /// A subscription taken from a channel never runs ahead of it.
    pub open spec fn valid_for(self, c: Channel) -> bool {
        self.last_seen <= c.generation
    }
}

impl Channel {
    /// The slot holds the sentinel exactly until the first publish.
    pub open spec fn wf(self) -> bool {
        self.slot is Sentinel <==> self.generation == 0
    }

    /// A subscription to `self` can receive a value exactly when the slot
    /// has moved past the generation the subscription last observed.
    pub open spec fn has_fresh_value(self, s: Subscription) -> bool {
        s.last_seen != self.generation
    }

    /// A fresh channel: generation zero, slot holding the sentinel.
    pub fn new() -> (c: Channel)
        ensures
            c.wf(),
            c.generation == 0,
            c.slot is Sentinel,
    {
        Channel { slot: SlotValue::Sentinel, generation: 0 }
    }

    /// The current generation.
    pub fn generation(&self) -> (g: u64)
        ensures
            g == self.generation,
    {
        self.generation
    }

    /// Atomically replaces the slot's value and increments the generation.
    ///
    /// Only real frame results can be published: the sentinel is not a
    /// [`FrameResult`], so no publish can ever reintroduce it.
    pub fn publish(&mut self, v: FrameResult)
        requires
            old(self).wf(),
            old(self).generation < u64::MAX,
        ensures
            final(self).wf(),
            final(self).generation == old(self).generation + 1,
            final(self).slot == SlotValue::Published(v),
    {
        self.slot = SlotValue::Published(v);
        self.generation = self.generation + 1;
    }

    /// A new subscription, pinned to the current generation: the first value
    /// it can receive is the next publish, never the value present now.
    pub fn subscribe(&self) -> (s: Subscription)
        ensures
            s.last_seen == self.generation,
            s.valid_for(*self),
    {
        Subscription { last_seen: self.generation }
    }

    /// Delivers the current value if its generation differs from the last
    /// one this subscription observed, advancing the subscription to the
    /// slot's generation; returns `None` when nothing new has been published.
    ///
    /// The caller suspends and retries on `None`; this function itself never
    /// blocks.
    pub fn try_next(&self, s: &mut Subscription) -> (r: Option<FrameResult>)
        requires
            self.wf(),
            old(s).valid_for(*self),
        ensures
            final(s).valid_for(*self),
            r is Some <==> self.has_fresh_value(*old(s)),
            r is None ==> *final(s) == *old(s),
            r matches Some(v) ==> {
                &&& final(s).last_seen == self.generation
                &&& final(s).last_seen > old(s).last_seen
                &&& self.slot matches SlotValue::Published(p) && frame_result_eqv(v, p)
            },
    {
        if self.generation == s.last_seen {
            None
        } else {
            s.last_seen = self.generation;
            match &self.slot {
                SlotValue::Published(p) => Some(p.duplicate()),
                SlotValue::Sentinel => {
                    // wf plus a strictly newer generation rules the sentinel out
                    proof {
                        assert(self.generation > 0);
                    }
                    unreached()
                },
            }
        }
    }
}

/// Law: a subscriber observes strictly increasing generations.  If one
/// receive observes generation `g1` and a later receive (after the channel
/// has only moved forward) observes `g2`, then `g2 > g1`; in particular no
/// generation is observed twice, and never out of order.
pub proof fn lemma_observed_generations_strictly_increase(
    c1: Channel,
    c2: Channel,
    s0: Subscription,
    s1: Subscription,
    s2: Subscription,
)
    requires
        s0.valid_for(c1),
        c1.has_fresh_value(s0),
        s1.last_seen == c1.generation,
        c1.generation <= c2.generation,
        c2.has_fresh_value(s1),
        s2.last_seen == c2.generation,
    ensures
        s1.last_seen > s0.last_seen,
        s2.last_seen > s1.last_seen,
{
}

/// Law: a subscriber that subscribes after `k` publishes and then receives a
/// value observes a generation of at least `k + 1` — never the value that was
/// current at subscribe time.
pub proof fn lemma_fresh_subscription_never_stale(c_at_subscribe: Channel, c_later: Channel, s: Subscription)
    requires
        s.last_seen == c_at_subscribe.generation,
        c_at_subscribe.generation <= c_later.generation,
        c_later.has_fresh_value(s),
    ensures
        c_later.generation >= c_at_subscribe.generation + 1,
{
}

/// Law: the startup sentinel is never delivered.  Whenever a receive can
/// fire at all, the slot holds a published frame result, not the sentinel.
pub proof fn lemma_sentinel_never_delivered(c: Channel, s: Subscription)
    requires
        c.wf(),
        s.valid_for(c),
        c.has_fresh_value(s),
    ensures
        c.slot is Published,
{
    assert(c.generation > 0);
}

/// Law: if the producer dies before publishing anything — the generation
/// never leaves zero — no subscriber ever receives a value at all.
pub proof fn lemma_starved_subscriber_receives_nothing(c: Channel, s: Subscription)
    requires
        c.generation == 0,
        s.valid_for(c),
    ensures
        !c.has_fresh_value(s),
{
}

} // verus!
