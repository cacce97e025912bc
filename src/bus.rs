//! The broadcast bus: one producer side, any number of subscribers, each with
//! its own bounded queue. A full queue drops its oldest event and counts the
//! drop; the count is reported on that subscriber's next read.

use vstd::prelude::*;
use std::collections::VecDeque;
use crate::event::HealthCheckInfo;

verus! {

/// What one subscriber holds: unread events, oldest first, and how many
/// events were dropped since its last read.
pub struct SubView {
    pub pending: Seq<HealthCheckInfo>,
    pub missed: u64,
}

/// The bus as a whole: the queue capacity shared by all subscribers, and one
/// slot per subscription handle (`None` once that subscriber has left).
pub struct BusView {
    pub capacity: nat,
    pub subscribers: Seq<Option<SubView>>,
}

/// The outcome of one read by a subscriber.
#[derive(Debug)]
pub enum Received {
    /// The oldest unread event.
    Event(HealthCheckInfo),
    /// This many events were dropped since the last read.
    Lagged(u64),
    /// Nothing to read yet.
    Empty,
    /// The handle names no live subscription.
    Closed,
}

pub open spec fn saturating_inc(n: u64) -> u64 {
    if n == u64::MAX { n } else { (n + 1) as u64 }
}

pub open spec fn fresh_sub() -> SubView {
    SubView { pending: Seq::empty(), missed: 0 }
}

/// A subscriber after `e` is published: appended, evicting the oldest
/// unread event when the queue is already full.
pub open spec fn enqueue(s: SubView, capacity: nat, e: HealthCheckInfo) -> SubView {
    if s.pending.len() < capacity {
        SubView { pending: s.pending.push(e), missed: s.missed }
    } else {
        SubView { pending: s.pending.drop_first().push(e), missed: saturating_inc(s.missed) }
    }
}

/// One read: a pending drop count comes first, then the oldest event.
pub open spec fn receive(s: SubView) -> (Received, SubView) {
    if s.missed > 0 {
        (Received::Lagged(s.missed), SubView { pending: s.pending, missed: 0 })
    } else if s.pending.len() == 0 {
        (Received::Empty, s)
    } else {
        (Received::Event(s.pending[0]), SubView { pending: s.pending.drop_first(), missed: 0 })
    }
}

pub open spec fn publish_slots(
    subs: Seq<Option<SubView>>,
    capacity: nat,
    e: HealthCheckInfo,
) -> Seq<Option<SubView>> {
    subs.map_values(
        |o: Option<SubView>|
            match o {
                Some(s) => Some(enqueue(s, capacity, e)),
                None => None,
            },
    )
}

pub open spec fn no_live_subscribers(subs: Seq<Option<SubView>>) -> bool {
    forall|i: int| 0 <= i < subs.len() ==> #[trigger] subs[i] is None
}

pub open spec fn first_free_slot(subs: Seq<Option<SubView>>, id: int) -> bool {
    &&& 0 <= id <= subs.len()
    &&& id < subs.len() ==> subs[id] is None
    &&& forall|j: int| 0 <= j < id ==> #[trigger] subs[j] is Some
}

struct Subscriber {
    pending: VecDeque<HealthCheckInfo>,
    missed: u64,
}

impl Subscriber {
    closed spec fn view(&self) -> SubView {
        SubView { pending: self.pending@, missed: self.missed }
    }

    fn push(&mut self, e: &HealthCheckInfo, capacity: usize)
        requires
            capacity > 0,
            old(self).view().pending.len() <= capacity,
        ensures
            final(self).view() == enqueue(old(self).view(), capacity as nat, *e),
    {
        if self.pending.len() >= capacity {
            let _ = self.pending.pop_front();
            if self.missed < u64::MAX {
                self.missed = self.missed + 1;
            }
        }
        self.pending.push_back(e.duplicate());
        proof {
            assert(self.view().pending =~= enqueue(old(self).view(), capacity as nat, *e).pending);
        }
    }

    fn take(&mut self) -> (r: Received)
        ensures
            (r, final(self).view()) == receive(old(self).view()),
    {
        if self.missed > 0 {
            let n = self.missed;
            self.missed = 0;
            Received::Lagged(n)
        } else {
            match self.pending.pop_front() {
                Some(e) => Received::Event(e),
                None => Received::Empty,
            }
        }
    }
}

/// The shared publisher. Publishing never waits for subscribers: a slow
/// subscriber loses its own oldest events and nobody else's.
pub struct BroadcastActor {
    capacity: usize,
    subscribers: Vec<Option<Subscriber>>,
}

spec fn slot_view(o: Option<Subscriber>) -> Option<SubView> {
    match o {
        Some(s) => Some(s.view()),
        None => None,
    }
}

impl View for BroadcastActor {
    type V = BusView;

    closed spec fn view(&self) -> BusView {
        BusView {
            capacity: self.capacity as nat,
            subscribers: self.subscribers@.map_values(|o: Option<Subscriber>| slot_view(o)),
        }
    }
}

impl BroadcastActor {
    pub open spec fn well_formed(&self) -> bool {
        &&& self@.capacity > 0
        &&& forall|i: int|
            0 <= i < self@.subscribers.len() && #[trigger] self@.subscribers[i] is Some
                ==> self@.subscribers[i]->0.pending.len() <= self@.capacity
    }

    /// A bus whose subscribers each buffer up to `capacity` unread events.
    pub fn new(capacity: usize) -> (r: Self)
        requires
            capacity > 0,
        ensures
            r.well_formed(),
            r@ == (BusView { capacity: capacity as nat, subscribers: Seq::empty() }),
    {
        let r = BroadcastActor { capacity, subscribers: Vec::new() };
        assert(r@.subscribers =~= Seq::empty());
        r
    }

    /// Registers a new subscriber, which sees every event published from now
    /// on. Returns its handle: the lowest free slot.
    pub fn subscribe(&mut self) -> (id: usize)
        requires
            old(self).well_formed(),
        ensures
            final(self).well_formed(),
            first_free_slot(old(self)@.subscribers, id as int),
            final(self)@ == (BusView {
                capacity: old(self)@.capacity,
                subscribers: if id < old(self)@.subscribers.len() {
                    old(self)@.subscribers.update(id as int, Some(fresh_sub()))
                } else {
                    old(self)@.subscribers.push(Some(fresh_sub()))
                },
            }),
    {
        let mut i: usize = 0;
        while i < self.subscribers.len()
            invariant
                self == old(self),
                i <= self.subscribers@.len(),
                forall|j: int| 0 <= j < i ==> #[trigger] self@.subscribers[j] is Some,
            ensures
                i <= self.subscribers@.len(),
                i < self.subscribers@.len() ==> self@.subscribers[i as int] is None,
                forall|j: int| 0 <= j < i ==> #[trigger] self@.subscribers[j] is Some,
            decreases self.subscribers@.len() - i,
        {
            assert(self@.subscribers[i as int] == slot_view(self.subscribers@[i as int]));
            if self.subscribers[i].is_none() {
                break;
            }
            i = i + 1;
        }
        let fresh = Subscriber { pending: VecDeque::new(), missed: 0 };
        assert(fresh.view() == fresh_sub());
        if i < self.subscribers.len() {
            self.subscribers.set(i, Some(fresh));
            assert(self@.subscribers =~= old(self)@.subscribers.update(i as int, Some(fresh_sub())));
        } else {
            self.subscribers.push(Some(fresh));
            assert(self@.subscribers =~= old(self)@.subscribers.push(Some(fresh_sub())));
        }
        i
    }

    /// Ends a subscription and frees its buffer; other subscribers are
    /// untouched. An unknown handle changes nothing.
    pub fn unsubscribe(&mut self, id: usize)
        requires
            old(self).well_formed(),
        ensures
            final(self).well_formed(),
            final(self)@ == (BusView {
                capacity: old(self)@.capacity,
                subscribers: if id < old(self)@.subscribers.len() {
                    old(self)@.subscribers.update(id as int, None)
                } else {
                    old(self)@.subscribers
                },
            }),
    {
        if id < self.subscribers.len() {
            self.subscribers.set(id, None);
            assert(self@.subscribers =~= old(self)@.subscribers.update(id as int, None));
        }
    }

    /// Hands `e` to every live subscriber. With no subscribers the event is
    /// dropped and the bus is left exactly as it was.
    pub fn publish(&mut self, e: HealthCheckInfo)
        requires
            old(self).well_formed(),
        ensures
            final(self).well_formed(),
            final(self)@ == (BusView {
                capacity: old(self)@.capacity,
                subscribers: publish_slots(old(self)@.subscribers, old(self)@.capacity, e),
            }),
            no_live_subscribers(old(self)@.subscribers) ==> final(self)@ == old(self)@,
    {
        let ghost target = publish_slots(old(self)@.subscribers, old(self)@.capacity, e);
        let mut i: usize = 0;
        while i < self.subscribers.len()
            invariant
                self.capacity == old(self).capacity,
                self.capacity > 0,
                self.subscribers@.len() == old(self).subscribers@.len(),
                i <= self.subscribers@.len(),
                target == publish_slots(old(self)@.subscribers, old(self)@.capacity, e),
                old(self).well_formed(),
                forall|j: int| 0 <= j < i ==> #[trigger] self@.subscribers[j] == target[j],
                forall|j: int|
                    i <= j < self.subscribers@.len() ==> #[trigger] self.subscribers@[j]
                        == old(self).subscribers@[j],
            decreases self.subscribers@.len() - i,
        {
            let ghost before = self.subscribers@;
            let ghost before_view = self@.subscribers;
            assert(forall|j: int| 0 <= j < i ==> before_view[j] == #[trigger] target[j]);
            assert(old(self)@.subscribers[i as int] == slot_view(old(self).subscribers@[i as int]));
            assert(target[i as int] == match old(self)@.subscribers[i as int] {
                Some(s) => Some(enqueue(s, old(self)@.capacity, e)),
                None => None::<SubView>,
            });
            let mut slot: Option<Subscriber> = None;
            self.subscribers.set_and_swap(i, &mut slot);
            match slot {
                Some(mut sub) => {
                    sub.push(&e, self.capacity);
                    self.subscribers.set(i, Some(sub));
                },
                None => {},
            }
            proof {
                assert(self@.subscribers[i as int] == slot_view(self.subscribers@[i as int]));
                assert forall|j: int| 0 <= j < i implies #[trigger] self@.subscribers[j] == target[j] by {
                    assert(self.subscribers@[j] == before[j]);
                    assert(before_view[j] == slot_view(before[j]));
                    assert(self@.subscribers[j] == slot_view(self.subscribers@[j]));
                }
            }
            i = i + 1;
        }
        assert(self@.subscribers =~= target);
        proof {
            if no_live_subscribers(old(self)@.subscribers) {
                assert(self@.subscribers =~= old(self)@.subscribers);
            }
        }
    }

    /// One read by subscriber `id`: a drop count if events were lost since
    /// its last read, else its oldest unread event, else `Empty`; `Closed`
    /// for a handle with no live subscription.
    pub fn try_recv(&mut self, id: usize) -> (r: Received)
        requires
            old(self).well_formed(),
        ensures
            final(self).well_formed(),
            id < old(self)@.subscribers.len() && old(self)@.subscribers[id as int] is Some ==> {
                let (out, after) = receive(old(self)@.subscribers[id as int]->0);
                &&& r == out
                &&& final(self)@ == (BusView {
                    capacity: old(self)@.capacity,
                    subscribers: old(self)@.subscribers.update(id as int, Some(after)),
                })
            },
            !(id < old(self)@.subscribers.len() && old(self)@.subscribers[id as int] is Some) ==> {
                &&& r is Closed
                &&& final(self)@ == old(self)@
            },
    {
        if id >= self.subscribers.len() {
            return Received::Closed;
        }
        let mut slot: Option<Subscriber> = None;
        self.subscribers.set_and_swap(id, &mut slot);
        match slot {
            Some(mut sub) => {
                let r = sub.take();
                self.subscribers.set(id, Some(sub));
                let ghost after = receive(old(self)@.subscribers[id as int]->0).1;
                assert(self@.subscribers =~= old(self)@.subscribers.update(id as int, Some(after)));
                r
            },
            None => {
                assert(self.subscribers@ =~= old(self).subscribers@);
                assert(self@.subscribers =~= old(self)@.subscribers);
                Received::Closed
            },
        }
    }

    /// How many subscriptions are live.
    pub fn receiver_count(&self) -> (n: usize)
        ensures
            n == live_count(self@.subscribers),
    {
        let mut n: usize = 0;
        let mut i: usize = 0;
        while i < self.subscribers.len()
            invariant
                i <= self.subscribers@.len(),
                n <= i,
                n == live_count(self@.subscribers.take(i as int)),
            decreases self.subscribers@.len() - i,
        {
            proof {
                assert(self@.subscribers.take(i as int + 1).drop_last()
                    =~= self@.subscribers.take(i as int));
            }
            if self.subscribers[i].is_some() {
                n = n + 1;
            }
            i = i + 1;
        }
        assert(self@.subscribers.take(i as int) =~= self@.subscribers);
        n
    }
}

/// The number of live slots.
pub open spec fn live_count(subs: Seq<Option<SubView>>) -> nat
    decreases subs.len(),
{
    if subs.len() == 0 {
        0
    } else {
        live_count(subs.drop_last()) + if subs.last() is Some { 1nat } else { 0nat }
    }
}

} // verus!
