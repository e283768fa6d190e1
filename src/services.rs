use crate::models::{EventView, NotificationEvent};
use vstd::prelude::*;

verus! {

/// How many undelivered events one subscription holds before the oldest of
/// them is dropped.
pub const CAPACITY: usize = 100;

/// One active subscription: its identifier, the events published to it and
/// not yet received (oldest first), and how many events it lost since it last
/// received.
struct Subscription {
    id: u64,
    pending: Vec<NotificationEvent>,
    lagged: u64,
}

/// The mathematical value of a subscription.
pub struct SubscriptionView {
    pub id: u64,
    pub pending: Seq<EventView>,
    pub lagged: u64,
}

/// The mathematical value of a broadcaster: its subscriptions in the order
/// they were made, and the identifier the next one gets.
pub struct BroadcasterView {
    pub subs: Seq<SubscriptionView>,
    pub next_id: u64,
}

/// In-memory fanout of events to every active subscription, each with a
/// bounded queue that drops its oldest event when full.
pub struct EventBroadcaster {
    subs: Vec<Subscription>,
    next_id: u64,
}

/// What one receive on a subscription yields.
pub enum RecvOutcome {
    /// The oldest undelivered event.
    Event(NotificationEvent),
    /// The subscription lost this many events to overflow since its last receive.
    Lagged(u64),
    /// Nothing is waiting.
    Empty,
    /// The subscription is not (or no longer) active.
    Closed,
}

impl Subscription {
    spec fn view(&self) -> SubscriptionView {
        SubscriptionView {
            id: self.id,
            pending: self.pending@.map_values(|e: NotificationEvent| e@),
            lagged: self.lagged,
        }
    }
}

impl View for EventBroadcaster {
    type V = BroadcasterView;

    closed spec fn view(&self) -> BroadcasterView {
        BroadcasterView {
            subs: self.subs@.map_values(|s: Subscription| s.view()),
            next_id: self.next_id,
        }
    }
}

/// One more lost event, saturating at the largest count.
pub open spec fn bump(n: u64) -> u64 {
    if n < u64::MAX {
        (n + 1) as u64
    } else {
        n
    }
}

/// A subscription after one event is published to it: appended, and when the
/// queue was full the oldest event dropped and counted as lost.
pub open spec fn offer(s: SubscriptionView, e: EventView) -> SubscriptionView {
    if s.pending.len() < CAPACITY {
        SubscriptionView { id: s.id, pending: s.pending.push(e), lagged: s.lagged }
    } else {
        SubscriptionView { id: s.id, pending: s.pending.drop_first().push(e), lagged: bump(s.lagged) }
    }
}

/// A subscription after a sequence of events is published to it, in order.
pub open spec fn offer_all(s: SubscriptionView, es: Seq<EventView>) -> SubscriptionView
    decreases es.len(),
{
    if es.len() == 0 {
        s
    } else {
        offer(offer_all(s, es.drop_last()), es.last())
    }
}

/// A broadcaster after one event is published: every subscription is offered it.
pub open spec fn published(b: BroadcasterView, e: EventView) -> BroadcasterView {
    BroadcasterView { subs: b.subs.map_values(|s: SubscriptionView| offer(s, e)), next_id: b.next_id }
}

/// A broadcaster after a sequence of events is published by one caller, in order.
pub open spec fn published_all(b: BroadcasterView, es: Seq<EventView>) -> BroadcasterView
    decreases es.len(),
{
    if es.len() == 0 {
        b
    } else {
        published(published_all(b, es.drop_last()), es.last())
    }
}

/// A broadcaster after a new subscription, with an empty queue, is added.
pub open spec fn subscribed(b: BroadcasterView) -> BroadcasterView {
    BroadcasterView {
        subs: b.subs.push(SubscriptionView { id: b.next_id, pending: Seq::empty(), lagged: 0 }),
        next_id: (b.next_id + 1) as u64,
    }
}

/// Whether a subscription with this identifier is active.
pub open spec fn is_active(b: BroadcasterView, id: u64) -> bool {
    exists|i: int| 0 <= i < b.subs.len() && b.subs[i].id == id
}

/// The position of the active subscription with this identifier.
pub open spec fn slot(b: BroadcasterView, id: u64) -> int {
    choose|i: int| 0 <= i < b.subs.len() && b.subs[i].id == id
}

/// Every queue within its capacity, and identifiers distinct and below the
/// next one to be handed out.
pub open spec fn wf_view(b: BroadcasterView) -> bool {
    &&& forall|i: int| 0 <= i < b.subs.len() ==> #[trigger] b.subs[i].pending.len() <= CAPACITY
    &&& forall|i: int| 0 <= i < b.subs.len() ==> #[trigger] b.subs[i].id < b.next_id
    &&& forall|i: int, j: int|
        0 <= i < b.subs.len() && 0 <= j < b.subs.len() && i != j ==> #[trigger] b.subs[i].id
            != #[trigger] b.subs[j].id
}

/// A subscription after one receive: a lag report clears the count; else the
/// oldest event leaves the queue.
pub open spec fn after_recv(s: SubscriptionView) -> SubscriptionView {
    if s.lagged > 0 {
        SubscriptionView { id: s.id, pending: s.pending, lagged: 0 }
    } else if s.pending.len() > 0 {
        SubscriptionView { id: s.id, pending: s.pending.drop_first(), lagged: 0 }
    } else {
        s
    }
}

/// A broadcaster after one receive on the active subscription `id`.
pub open spec fn received(b: BroadcasterView, id: u64) -> BroadcasterView {
    BroadcasterView {
        subs: b.subs.update(slot(b, id), after_recv(b.subs[slot(b, id)])),
        next_id: b.next_id,
    }
}

/// A broadcaster after the active subscription `id` ends.
pub open spec fn unsubscribed(b: BroadcasterView, id: u64) -> BroadcasterView {
    BroadcasterView { subs: b.subs.remove(slot(b, id)), next_id: b.next_id }
}

/// What one receive on a subscription yields: first any count of lost
/// events, then the oldest waiting event.
pub open spec fn recv_result(r: RecvOutcome, s: SubscriptionView) -> bool {
    if s.lagged > 0 {
        r == RecvOutcome::Lagged(s.lagged)
    } else if s.pending.len() > 0 {
        r matches RecvOutcome::Event(e) && e@ == s.pending[0]
    } else {
        r is Empty
    }
}

impl EventBroadcaster {
    pub open spec fn wf(&self) -> bool {
        wf_view(self@)
    }

    /// A broadcaster with no subscriptions.
    pub fn new() -> (r: EventBroadcaster)
        ensures
            r.wf(),
            r@.subs.len() == 0,
            r@.next_id == 0,
    {
        let r = EventBroadcaster { subs: Vec::new(), next_id: 0 };
        assert(r@.subs =~= Seq::<SubscriptionView>::empty());
        r
    }

    /// Adds a subscription with an empty queue and returns its identifier;
    /// `None` once every identifier has been handed out.
    pub fn subscribe(&mut self) -> (r: Option<u64>)
        requires
            old(self).wf(),
        ensures
            final(self).wf(),
            old(self)@.next_id < u64::MAX ==> r == Some(old(self)@.next_id) && final(self)@
                == subscribed(old(self)@),
            old(self)@.next_id < u64::MAX ==> is_active(final(self)@, old(self)@.next_id) && slot(
                final(self)@,
                old(self)@.next_id,
            ) == old(self)@.subs.len(),
            old(self)@.next_id == u64::MAX ==> r is None && final(self)@ == old(self)@,
    {
        if self.next_id == u64::MAX {
            return None;
        }
        let id = self.next_id;
        let sub = Subscription { id, pending: Vec::new(), lagged: 0 };
        assert(sub.view().pending =~= Seq::<EventView>::empty());
        self.subs.push(sub);
        self.next_id = id + 1;
        assert(self@.subs =~= subscribed(old(self)@).subs);
        let ghost last = old(self)@.subs.len() as int;
        assert(self@.subs[last].id == id);
        let ghost c = slot(self@, id);
        assert(0 <= c < self@.subs.len() && self@.subs[c].id == id);
        assert(c == last) by {
            if c != last {
                assert(old(self)@.subs[c].id < old(self)@.next_id);
            }
        }
        Some(id)
    }

    /// Publishes an event: every active subscription gets its own copy at the
    /// back of its queue, and a full queue drops its oldest event. With no
    /// subscription this changes nothing.
    pub fn send(&mut self, event: NotificationEvent)
        requires
            old(self).wf(),
        ensures
            final(self).wf(),
            final(self)@ == published(old(self)@, event@),
            forall|id: u64| #[trigger]
                is_active(old(self)@, id) ==> is_active(final(self)@, id) && slot(final(self)@, id)
                    == slot(old(self)@, id),
    {
        let n = self.subs.len();
        let mut i: usize = 0;
        while i < n
            invariant
                n == self.subs.len(),
                n == old(self)@.subs.len(),
                0 <= i <= n,
                self.next_id == old(self).next_id,
                forall|k: int| 0 <= k < i ==> #[trigger] self@.subs[k] == offer(old(self)@.subs[k], event@),
                forall|k: int| i <= k < n ==> #[trigger] self@.subs[k] == old(self)@.subs[k],
                wf_view(old(self)@),
            decreases n - i,
        {
            let ghost cur = self.subs@;
            let ghost cur_view = self@;
            assert(self@.subs[i as int] == old(self)@.subs[i as int]);
            assert(self@.subs[i as int] == cur[i as int].view());
            let mut sub = self.subs.remove(i);
            let ghost before = sub.view();
            assert(before == old(self)@.subs[i as int]);
            if sub.pending.len() >= CAPACITY {
                sub.pending.remove(0);
                sub.lagged = sub.lagged.saturating_add(1);
            }
            sub.pending.push(event.duplicate());
            assert(sub.view().pending =~= offer(before, event@).pending);
            assert(sub.view() == offer(before, event@));
            self.subs.insert(i, sub);
            assert(self.subs@ =~= cur.update(i as int, sub));
            assert forall|k: int| 0 <= k < n implies #[trigger] self@.subs[k] == (if k <= i {
                offer(old(self)@.subs[k], event@)
            } else {
                old(self)@.subs[k]
            }) by {
                assert(self@.subs[k] == self.subs@[k].view());
                if k != i {
                    assert(self.subs@[k] == cur[k]);
                    assert(cur_view.subs[k] == cur[k].view());
                }
            }
            i = i + 1;
        }
        assert(self@.subs =~= published(old(self)@, event@).subs);
        assert forall|id: u64| #[trigger]
            is_active(old(self)@, id) implies is_active(self@, id) && slot(self@, id) == slot(
                old(self)@,
                id,
            ) by {
            let k = slot(old(self)@, id);
            assert(self@.subs[k].id == id);
            let c = slot(self@, id);
            assert(0 <= c < self@.subs.len() && self@.subs[c].id == id);
            assert(old(self)@.subs[c].id == id);
            if c != k {
                assert(old(self)@.subs[c].id != old(self)@.subs[k].id);
            }
        }
    }

    /// The position of the active subscription with this identifier.
    fn position(&self, id: u64) -> (r: Option<usize>)
        requires
            self.wf(),
        ensures
            match r {
                Some(k) => is_active(self@, id) && k == slot(self@, id) && k < self.subs.len(),
                None => !is_active(self@, id),
            },
    {
        let n = self.subs.len();
        let mut k: usize = 0;
        while k < n
            invariant
                n == self.subs.len(),
                0 <= k <= n,
                forall|j: int| 0 <= j < k ==> #[trigger] self@.subs[j].id != id,
                self.wf(),
            decreases n - k,
        {
            assert(self@.subs[k as int].id == self.subs@[k as int].id);
            if self.subs[k].id == id {
                assert(0 <= k < self@.subs.len() && self@.subs[k as int].id == id);
                let ghost c = slot(self@, id);
                assert(0 <= c < self@.subs.len() && self@.subs[c].id == id);
                proof {
                    if c != k as int {
                        assert(self@.subs[c].id != self@.subs[k as int].id);
                    }
                }
                return Some(k);
            }
            k = k + 1;
        }
        None
    }

    /// Receives once on a subscription: first a report of events lost to
    /// overflow, if any; else the oldest waiting event, which leaves the
    /// queue; else `Empty`. `Closed` for an identifier that is not active.
    pub fn recv(&mut self, id: u64) -> (r: RecvOutcome)
        requires
            old(self).wf(),
        ensures
            final(self).wf(),
            !is_active(old(self)@, id) ==> r is Closed && final(self)@ == old(self)@,
            is_active(old(self)@, id) ==> recv_result(r, old(self)@.subs[slot(old(self)@, id)]),
            is_active(old(self)@, id) ==> final(self)@ == received(old(self)@, id),
    {
        let k = match self.position(id) {
            Some(k) => k,
            None => return RecvOutcome::Closed,
        };
        let ghost cur = self.subs@;
        assert(self@.subs[k as int] == cur[k as int].view());
        let mut sub = self.subs.remove(k);
        let ghost before = sub.view();
        let r = if sub.lagged > 0 {
            let n = sub.lagged;
            sub.lagged = 0;
            RecvOutcome::Lagged(n)
        } else if sub.pending.len() > 0 {
            let e = sub.pending.remove(0);
            assert(e@ == before.pending[0]);
            RecvOutcome::Event(e)
        } else {
            RecvOutcome::Empty
        };
        assert(sub.view().pending =~= after_recv(before).pending);
        assert(sub.view() == after_recv(before));
        self.subs.insert(k, sub);
        assert(self.subs@ =~= cur.update(k as int, sub));
        assert(self@.subs =~= old(self)@.subs.update(k as int, after_recv(before)));
        r
    }

    /// Ends a subscription: its waiting events are discarded. Returns whether
    /// it was active.
    pub fn unsubscribe(&mut self, id: u64) -> (r: bool)
        requires
            old(self).wf(),
        ensures
            final(self).wf(),
            r == is_active(old(self)@, id),
            r ==> final(self)@ == unsubscribed(old(self)@, id),
            !r ==> final(self)@ == old(self)@,
    {
        match self.position(id) {
            Some(k) => {
                let ghost cur = self.subs@;
                self.subs.remove(k);
                assert(self.subs@ =~= cur.remove(k as int));
                assert(self@.subs =~= old(self)@.subs.remove(k as int));
                true
            },
            None => false,
        }
    }

    /// The number of active subscriptions.
    pub fn subscriber_count(&self) -> (r: usize)
        ensures
            r == self@.subs.len(),
    {
        self.subs.len()
    }
}

} // verus!

verus! {

/// The last `n` items of a queue (all of it when it is no longer).
pub open spec fn keep_last(q: Seq<EventView>, n: nat) -> Seq<EventView> {
    if q.len() <= n {
        q
    } else {
        q.subrange(q.len() - n, q.len() as int)
    }
}

/// Publishing a sequence of events to one subscription keeps, in publication
/// order, the last `CAPACITY` of its waiting events followed by the new ones;
/// it counts lost events exactly when some were dropped.
pub proof fn lemma_offer_all(s: SubscriptionView, es: Seq<EventView>)
    requires
        s.pending.len() <= CAPACITY,
    ensures
        offer_all(s, es).id == s.id,
        offer_all(s, es).pending == keep_last(s.pending + es, CAPACITY as nat),
        s.pending.len() + es.len() <= CAPACITY ==> offer_all(s, es).lagged == s.lagged,
        s.pending.len() + es.len() > CAPACITY ==> offer_all(s, es).lagged > 0,
    decreases es.len(),
{
    if es.len() > 0 {
        let rest = es.drop_last();
        let x = es.last();
        lemma_offer_all(s, rest);
        let p = offer_all(s, rest);
        let q0 = s.pending + rest;
        let q = s.pending + es;
        assert(q =~= q0.push(x));
        if p.pending.len() < CAPACITY {
            assert(offer(p, x).pending =~= keep_last(q, CAPACITY as nat));
        } else {
            assert(offer(p, x).pending =~= keep_last(q, CAPACITY as nat));
        }
    } else {
        assert(s.pending + es =~= s.pending);
    }
}

/// Publishing a sequence of events to the broadcaster offers each active
/// subscription the whole sequence, in order, and adds or removes none.
pub proof fn lemma_published_all(b: BroadcasterView, es: Seq<EventView>)
    ensures
        published_all(b, es).subs.len() == b.subs.len(),
        published_all(b, es).next_id == b.next_id,
        forall|i: int|
            0 <= i < b.subs.len() ==> #[trigger] published_all(b, es).subs[i] == offer_all(
                b.subs[i],
                es,
            ),
    decreases es.len(),
{
    if es.len() > 0 {
        lemma_published_all(b, es.drop_last());
    }
}

/// Order preservation: a subscription active for a whole sequence of events
/// published by one caller, with room for them, gets exactly those events
/// after what it already waited for, in the order they were published, and
/// no report of lost events.
pub proof fn lemma_order_preserved(b: BroadcasterView, es: Seq<EventView>, i: int)
    requires
        wf_view(b),
        0 <= i < b.subs.len(),
        b.subs[i].pending.len() + es.len() <= CAPACITY,
    ensures
        published_all(b, es).subs[i].id == b.subs[i].id,
        published_all(b, es).subs[i].pending == b.subs[i].pending + es,
        published_all(b, es).subs[i].lagged == b.subs[i].lagged,
{
    lemma_published_all(b, es);
    lemma_offer_all(b.subs[i], es);
}

/// No replay: a subscription made after event `e1` and before event `e2`
/// holds `e2` alone, with no report of lost events.
pub proof fn lemma_no_replay(b: BroadcasterView, e1: EventView, e2: EventView)
    ensures
        published(subscribed(published(b, e1)), e2).subs.last().pending == seq![e2],
        published(subscribed(published(b, e1)), e2).subs.last().lagged == 0,
{
    let b2 = subscribed(published(b, e1));
    assert(b2.subs.last().pending.len() == 0);
    assert(published(b2, e2).subs.last() == offer(b2.subs.last(), e2));
    assert(Seq::<EventView>::empty().push(e2) =~= seq![e2]);
}

/// Publishing with no active subscription changes nothing.
pub proof fn lemma_publish_without_subscribers(b: BroadcasterView, e: EventView)
    requires
        b.subs.len() == 0,
    ensures
        published(b, e) == b,
{
    assert(published(b, e).subs =~= b.subs);
}

/// Lag drop: a subscription that receives nothing while more events are
/// published than its queue holds keeps the newest `CAPACITY` of them, in
/// order, ending with the last one published, and reports a loss; after that
/// report its events are received again.
pub proof fn lemma_lag_drops_oldest(s: SubscriptionView, es: Seq<EventView>)
    requires
        s.pending.len() <= CAPACITY,
        s.pending.len() + es.len() > CAPACITY,
    ensures
        offer_all(s, es).pending == (s.pending + es).subrange(
            s.pending.len() + es.len() - CAPACITY,
            (s.pending.len() + es.len()) as int,
        ),
        offer_all(s, es).pending.last() == es.last(),
        offer_all(s, es).lagged > 0,
        after_recv(offer_all(s, es)).pending == offer_all(s, es).pending,
        after_recv(offer_all(s, es)).lagged == 0,
{
    lemma_offer_all(s, es);
}

/// Round trip: an event published while a subscription with room is active
/// reaches that subscription unchanged (same identifier, text and instant),
/// behind what it already waited for.
pub proof fn lemma_delivered_intact(b: BroadcasterView, e: EventView, i: int)
    requires
        wf_view(b),
        0 <= i < b.subs.len(),
        b.subs[i].pending.len() < CAPACITY,
    ensures
        published(b, e).subs[i].pending == b.subs[i].pending.push(e),
        published(b, e).subs[i].pending.last() == e,
{
}

} // verus!
