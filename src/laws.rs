//! Delivery guarantees of the broadcast bus, stated over the per-subscriber
//! model that `BroadcastActor::publish` and `BroadcastActor::try_recv` follow
//! (`publish_slots`/`enqueue` and `receive`).

use vstd::prelude::*;
use crate::bus::{enqueue, fresh_sub, no_live_subscribers, publish_slots, receive, Received, SubView};
use crate::event::HealthCheckInfo;

verus! {

/// A subscriber after each of `events` is published, in order.
pub open spec fn enqueue_all(s: SubView, capacity: nat, events: Seq<HealthCheckInfo>) -> SubView
    decreases events.len(),
{
    if events.len() == 0 {
        s
    } else {
        enqueue(enqueue_all(s, capacity, events.drop_last()), capacity, events.last())
    }
}

/// All subscription slots after each of `events` is published, in order.
pub open spec fn publish_all_slots(
    subs: Seq<Option<SubView>>,
    capacity: nat,
    events: Seq<HealthCheckInfo>,
) -> Seq<Option<SubView>>
    decreases events.len(),
{
    if events.len() == 0 {
        subs
    } else {
        publish_slots(publish_all_slots(subs, capacity, events.drop_last()), capacity, events.last())
    }
}

/// The results of `n` consecutive reads, and the subscriber afterwards.
pub open spec fn read_n(s: SubView, n: nat) -> (Seq<Received>, SubView)
    decreases n,
{
    if n == 0 {
        (Seq::empty(), s)
    } else {
        let (r, s1) = receive(s);
        let (rs, s2) = read_n(s1, (n - 1) as nat);
        (seq![r] + rs, s2)
    }
}

/// Each event as a successful read.
pub open spec fn as_received(events: Seq<HealthCheckInfo>) -> Seq<Received> {
    events.map_values(|e: HealthCheckInfo| Received::Event(e))
}

/// A subscriber that reads once after every publish.
pub open spec fn publish_and_read(
    s: SubView,
    capacity: nat,
    events: Seq<HealthCheckInfo>,
) -> (SubView, Seq<Received>)
    decreases events.len(),
{
    if events.len() == 0 {
        (s, Seq::empty())
    } else {
        let (s1, rs) = publish_and_read(s, capacity, events.drop_last());
        let (r, s2) = receive(enqueue(s1, capacity, events.last()));
        (s2, rs.push(r))
    }
}

/// A subscriber driven by an arbitrary schedule: `true` publishes the next
/// of `events` (if any is left), `false` is one read. Gives the subscriber
/// afterwards, its reads, and how many events were published.
pub open spec fn run(
    s: SubView,
    capacity: nat,
    events: Seq<HealthCheckInfo>,
    steps: Seq<bool>,
) -> (SubView, Seq<Received>, nat)
    decreases steps.len(),
{
    if steps.len() == 0 {
        (s, Seq::empty(), 0)
    } else {
        let (s1, rs, k) = run(s, capacity, events, steps.drop_last());
        if steps.last() {
            if k < events.len() {
                (enqueue(s1, capacity, events[k as int]), rs, k + 1)
            } else {
                (s1, rs, k)
            }
        } else {
            let (r, s2) = receive(s1);
            (s2, rs.push(r), k)
        }
    }
}

/// The events among a subscriber's reads, in order.
pub open spec fn delivered(rs: Seq<Received>) -> Seq<HealthCheckInfo>
    decreases rs.len(),
{
    if rs.len() == 0 {
        Seq::empty()
    } else {
        delivered(rs.drop_last()) + match rs.last() {
            Received::Event(e) => seq![e],
            _ => Seq::empty(),
        }
    }
}

/// Whether any read reported dropped events.
pub open spec fn reported_lag(rs: Seq<Received>) -> bool
    decreases rs.len(),
{
    rs.len() > 0 && (rs.last() is Lagged || reported_lag(rs.drop_last()))
}

/// The number of events a subscriber of this capacity has lost after `n`
/// publishes without reading.
pub open spec fn overflow(n: nat, capacity: nat) -> nat {
    if n > capacity { (n - capacity) as nat } else { 0 }
}

/// A subscriber that reads nothing holds the newest `capacity` events,
/// oldest first, and counts every older one as dropped.
pub proof fn lemma_unread_keeps_newest(capacity: nat, events: Seq<HealthCheckInfo>)
    requires
        capacity > 0,
        events.len() <= u64::MAX,
    ensures
        enqueue_all(fresh_sub(), capacity, events) == (SubView {
            pending: events.subrange(overflow(events.len(), capacity) as int, events.len() as int),
            missed: overflow(events.len(), capacity) as u64,
        }),
    decreases events.len(),
{
    let n = events.len();
    if n > 0 {
        let prev = events.drop_last();
        lemma_unread_keeps_newest(capacity, prev);
        let lo = overflow((n - 1) as nat, capacity) as int;
        let s1 = enqueue_all(fresh_sub(), capacity, prev);
        if (n - 1) < capacity {
            assert(s1.pending.push(events.last()) =~= events.subrange(0, n as int));
        } else {
            assert(s1.pending.drop_first().push(events.last())
                =~= events.subrange(lo + 1, n as int));
        }
    } else {
        assert(events.subrange(0, 0) =~= Seq::<HealthCheckInfo>::empty());
    }
}

/// Reading a subscriber with no drops to report yields its pending events in
/// order and leaves it empty.
pub proof fn lemma_reads_drain_in_order(p: Seq<HealthCheckInfo>)
    ensures
        read_n(SubView { pending: p, missed: 0 }, p.len()) == (as_received(p), fresh_sub()),
    decreases p.len(),
{
    if p.len() == 0 {
        assert(p =~= Seq::<HealthCheckInfo>::empty());
        assert(as_received(p) =~= Seq::<Received>::empty());
    } else {
        lemma_reads_drain_in_order(p.drop_first());
        assert(seq![Received::Event(p[0])] + as_received(p.drop_first()) =~= as_received(p));
    }
}

/// A subscriber with capacity `capacity` that reads nothing while
/// `capacity + k` events are published loses exactly the oldest `k`: its
/// first read reports `k` dropped events, the next ones return the newest
/// `capacity` events in publish order, and it is then caught up.
pub proof fn lemma_overflow_reports_exact_loss(capacity: nat, k: nat, events: Seq<HealthCheckInfo>)
    requires
        capacity > 0,
        k > 0,
        events.len() == capacity + k,
        events.len() <= u64::MAX,
    ensures
        read_n(enqueue_all(fresh_sub(), capacity, events), capacity + 1) == (
            seq![Received::Lagged(k as u64)] + as_received(events.subrange(k as int, events.len() as int)),
            fresh_sub(),
        ),
{
    lemma_unread_keeps_newest(capacity, events);
    let kept = events.subrange(k as int, events.len() as int);
    lemma_reads_drain_in_order(kept);
    let s = enqueue_all(fresh_sub(), capacity, events);
    assert(receive(s) == (Received::Lagged(k as u64), SubView { pending: kept, missed: 0 }));
    assert(((capacity + 1) - 1) as nat == kept.len());
}

/// A subscriber that reads after every publish sees every event, in the
/// order published, with no gaps.
pub proof fn lemma_fast_subscriber_in_order(capacity: nat, events: Seq<HealthCheckInfo>)
    requires
        capacity > 0,
    ensures
        publish_and_read(fresh_sub(), capacity, events) == (fresh_sub(), as_received(events)),
    decreases events.len(),
{
    if events.len() == 0 {
        assert(as_received(events) =~= Seq::<Received>::empty());
    } else {
        let prev = events.drop_last();
        lemma_fast_subscriber_in_order(capacity, prev);
        let e = events.last();
        let one = enqueue(fresh_sub(), capacity, e);
        assert(one.pending =~= seq![e]);
        assert(one.pending.drop_first() =~= Seq::<HealthCheckInfo>::empty());
        assert(as_received(prev).push(Received::Event(e)) =~= as_received(events));
    }
}

/// Publishing to a bus without live subscribers changes nothing, however
/// many events are published.
pub proof fn lemma_publish_without_subscribers(
    subs: Seq<Option<SubView>>,
    capacity: nat,
    events: Seq<HealthCheckInfo>,
)
    requires
        no_live_subscribers(subs),
    ensures
        publish_all_slots(subs, capacity, events) == subs,
    decreases events.len(),
{
    if events.len() > 0 {
        lemma_publish_without_subscribers(subs, capacity, events.drop_last());
        assert(publish_slots(subs, capacity, events.last()) =~= subs);
    }
}

/// Each subscriber's slot evolves on its own: after any publishes it is its
/// earlier state with those events enqueued.
pub proof fn lemma_publish_each_slot(
    subs: Seq<Option<SubView>>,
    capacity: nat,
    events: Seq<HealthCheckInfo>,
    i: int,
)
    requires
        0 <= i < subs.len(),
    ensures
        publish_all_slots(subs, capacity, events).len() == subs.len(),
        publish_all_slots(subs, capacity, events)[i] == match subs[i] {
            Some(s) => Some(enqueue_all(s, capacity, events)),
            None => None,
        },
    decreases events.len(),
{
    if events.len() > 0 {
        lemma_publish_each_slot(subs, capacity, events.drop_last(), i);
    }
}

proof fn lemma_run_accounts(capacity: nat, events: Seq<HealthCheckInfo>, steps: Seq<bool>)
    requires
        capacity > 0,
    ensures
        ({
            let (s, rs, k) = run(fresh_sub(), capacity, events, steps);
            &&& k <= events.len()
            &&& (s.missed == 0 && !reported_lag(rs)) ==> delivered(rs) + s.pending == events.take(
                k as int,
            )
        }),
    decreases steps.len(),
{
    if steps.len() == 0 {
        assert(events.take(0) =~= Seq::<HealthCheckInfo>::empty());
        assert(Seq::<HealthCheckInfo>::empty() + Seq::<HealthCheckInfo>::empty()
            =~= Seq::<HealthCheckInfo>::empty());
    } else {
        lemma_run_accounts(capacity, events, steps.drop_last());
        let (s1, rs, k) = run(fresh_sub(), capacity, events, steps.drop_last());
        if steps.last() {
            if k < events.len() {
                let e = events[k as int];
                if s1.pending.len() < capacity && s1.missed == 0 && !reported_lag(rs) {
                    assert(delivered(rs) + s1.pending == events.take(k as int));
                    assert(events.take(k as int).push(e) =~= events.take(k as int + 1));
                    assert(delivered(rs) + s1.pending.push(e) =~= (delivered(rs) + s1.pending).push(e));
                }
            }
        } else {
            let (r, s2) = receive(s1);
            assert(rs.push(r).drop_last() =~= rs);
            if s2.missed == 0 && !reported_lag(rs.push(r)) && s1.missed == 0 && s1.pending.len() > 0 {
                assert(delivered(rs.push(r)) =~= delivered(rs) + seq![s1.pending[0]]);
                assert(delivered(rs) + seq![s1.pending[0]] + s1.pending.drop_first()
                    =~= delivered(rs) + s1.pending);
            }
        }
    }
}

/// Two subscribers reading at their own pace, neither of which falls far
/// enough behind to lose events, receive the same events: each one's reads
/// plus what it still holds are exactly what was published, so the two
/// multisets are identical.
pub proof fn lemma_subscribers_receive_same_events(
    capacity: nat,
    events: Seq<HealthCheckInfo>,
    steps_a: Seq<bool>,
    steps_b: Seq<bool>,
)
    requires
        capacity > 0,
        run(fresh_sub(), capacity, events, steps_a).2 == events.len(),
        run(fresh_sub(), capacity, events, steps_b).2 == events.len(),
        run(fresh_sub(), capacity, events, steps_a).0.missed == 0,
        run(fresh_sub(), capacity, events, steps_b).0.missed == 0,
        !reported_lag(run(fresh_sub(), capacity, events, steps_a).1),
        !reported_lag(run(fresh_sub(), capacity, events, steps_b).1),
    ensures
        ({
            let (sa, ra, _ka) = run(fresh_sub(), capacity, events, steps_a);
            let (sb, rb, _kb) = run(fresh_sub(), capacity, events, steps_b);
            &&& delivered(ra) + sa.pending == events
            &&& delivered(rb) + sb.pending == events
            &&& (delivered(ra) + sa.pending).to_multiset() == (delivered(rb)
                + sb.pending).to_multiset()
        }),
{
    lemma_run_accounts(capacity, events, steps_a);
    lemma_run_accounts(capacity, events, steps_b);
    assert(events.take(events.len() as int) =~= events);
}

} // verus!
