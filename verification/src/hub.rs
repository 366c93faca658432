use crate::chat::{ChatMessage, ChatView};
use vstd::prelude::*;

verus! {

/// The mathematical state of a [`Hub`]: its fixed capacity, the sequence
/// number of the next publication, and the window of retained events, oldest
/// first. The event with sequence number `i` is `window[i - (head -
/// window.len())]` while it is retained.
#[verifier::ext_equal]
pub struct HubView {
    pub cap: nat,
    pub head: nat,
    pub window: Seq<ChatView>,
}

impl HubView {
    /// Well-formedness: the capacity is positive and the window holds the
    /// most recent `cap` publications, or all of them while there have been
    /// fewer.
    pub open spec fn wf(self) -> bool {
        &&& self.cap > 0
        &&& self.window.len() == if self.head < self.cap {
            self.head
        } else {
            self.cap
        }
    }
}

/// The outcome of one receive attempt, at the mathematical level.
pub enum RecvView {
    Message(ChatView),
    Lagged,
    Empty,
}

/// Publishing appends the event and, when the window is full, evicts the
/// oldest retained event; it never blocks and never fails.
pub open spec fn spec_publish(h: HubView, m: ChatView) -> HubView {
    HubView {
        cap: h.cap,
        head: h.head + 1,
        window: if h.window.len() >= h.cap {
            h.window.skip(1).push(m)
        } else {
            h.window.push(m)
        },
    }
}

/// One receive attempt by a subscriber whose cursor is `c`: the outcome and
/// the cursor afterwards. A cursor at the head finds nothing; one that fell
/// behind the window observes `Lagged` and is fast-forwarded to the oldest
/// retained event; otherwise the event at the cursor is delivered and the
/// cursor advances by one.
pub open spec fn spec_receive(h: HubView, c: nat) -> (RecvView, nat) {
    if c >= h.head {
        (RecvView::Empty, c)
    } else if h.head - c > h.window.len() {
        (RecvView::Lagged, (h.head - h.window.len()) as nat)
    } else {
        (RecvView::Message(h.window[h.window.len() - (h.head - c)]), (c + 1) as nat)
    }
}

/// Publishing a sequence of events, first to last.
pub open spec fn spec_publish_all(h: HubView, ms: Seq<ChatView>) -> HubView
    decreases ms.len(),
{
    if ms.len() == 0 {
        h
    } else {
        spec_publish_all(spec_publish(h, ms[0]), ms.drop_first())
    }
}

/// Publishing preserves well-formedness.
pub proof fn lemma_publish_wf(h: HubView, m: ChatView)
    requires
        h.wf(),
    ensures
        spec_publish(h, m).wf(),
{
}

/// What any number of publishes leaves behind: the head advances by the
/// number of events published, and the window is the most recent stretch of
/// the old window followed by the new events.
pub proof fn lemma_publish_all(h: HubView, ms: Seq<ChatView>)
    requires
        h.wf(),
    ensures
        ({
            let h2 = spec_publish_all(h, ms);
            let all = h.window + ms;
            &&& h2.wf()
            &&& h2.cap == h.cap
            &&& h2.head == h.head + ms.len()
            &&& h2.window == all.skip(all.len() - h2.window.len())
        }),
    decreases ms.len(),
{
    let h2 = spec_publish_all(h, ms);
    let all = h.window + ms;
    if ms.len() == 0 {
        assert(h2.window =~= all.skip(all.len() - h2.window.len()));
    } else {
        let h1 = spec_publish(h, ms[0]);
        lemma_publish_wf(h, ms[0]);
        lemma_publish_all(h1, ms.drop_first());
        let all1 = h1.window + ms.drop_first();
        if h.window.len() >= h.cap {
            assert(all1 =~= all.skip(1));
        } else {
            assert(all1 =~= all);
        }
        assert(h2.window =~= all.skip(all.len() - h2.window.len()));
    }
}

/// Fan-out: after one publish, every subscriber that was attached before it
/// (its cursor at the pre-publish head) receives exactly the published event
/// and is then caught up, while a subscriber attached after the publish (its
/// cursor at the post-publish head) does not receive it.
pub proof fn lemma_fan_out(h: HubView, m: ChatView, c: nat)
    requires
        h.wf(),
        c == h.head,
    ensures
        ({
            let h2 = spec_publish(h, m);
            &&& spec_receive(h2, c) == (RecvView::Message(m), h2.head)
            &&& spec_receive(h2, h2.head).0 == RecvView::Empty
        }),
{
    lemma_publish_wf(h, m);
}

/// Bounded overload: publishing more events than the capacity while a
/// subscriber does not drain keeps the window at the capacity (memory stays
/// bounded), and that subscriber's next receive observes `Lagged`, is
/// fast-forwarded to the oldest retained event, and then receives that event
/// — never a permanent block.
pub proof fn lemma_bounded_overload(h: HubView, ms: Seq<ChatView>, c: nat)
    requires
        h.wf(),
        c == h.head,
        ms.len() > h.cap,
    ensures
        ({
            let h2 = spec_publish_all(h, ms);
            let oldest = (h2.head - h.cap) as nat;
            &&& h2.wf()
            &&& h2.window.len() == h.cap
            &&& spec_receive(h2, c) == (RecvView::Lagged, oldest)
            &&& spec_receive(h2, oldest).0 == RecvView::Message(ms[ms.len() - h.cap])
        }),
{
    lemma_publish_all(h, ms);
    let h2 = spec_publish_all(h, ms);
    let all = h.window + ms;
    assert(h2.window[0] == all[all.len() - h.cap]);
    assert(all[all.len() - h.cap] == ms[ms.len() - h.cap]);
}

/// The broadcast hub: a bounded ring of the most recent events and a
/// monotonically increasing sequence cursor. One hub is shared by every
/// connection of a server instance; subscribers read it through their own
/// independent cursors.
pub struct Hub {
    ring: Vec<ChatMessage>,
    head: u64,
    cap: usize,
}

impl View for Hub {
    type V = HubView;

    closed spec fn view(&self) -> HubView {
        HubView {
            cap: self.cap as nat,
            head: self.head as nat,
            window: self.ring@.map_values(|m: ChatMessage| m@),
        }
    }
}

/// A subscriber's private read cursor into a hub, created by
/// [`Hub::subscribe`]. Its view is the sequence number of the next
/// publication it will observe.
pub struct Subscription {
    next: u64,
}

impl View for Subscription {
    type V = nat;

    closed spec fn view(&self) -> nat {
        self.next as nat
    }
}

/// The outcome of one non-blocking receive attempt: a delivered event, a
/// `Lagged` gap signal, or nothing new yet.
#[derive(Debug, PartialEq, Eq)]
pub enum RecvOutcome {
    Message(ChatMessage),
    Lagged,
    Empty,
}

impl View for RecvOutcome {
    type V = RecvView;

    open spec fn view(&self) -> RecvView {
        match self {
            RecvOutcome::Message(m) => RecvView::Message(m@),
            RecvOutcome::Lagged => RecvView::Lagged,
            RecvOutcome::Empty => RecvView::Empty,
        }
    }
}

impl Hub {
    /// A fresh hub with fixed positive capacity and no publications yet.
    pub fn new(cap: usize) -> (h: Hub)
        requires
            cap > 0,
        ensures
            h@.wf(),
            h@ == (HubView { cap: cap as nat, head: 0, window: Seq::<ChatView>::empty() }),
    {
        let h = Hub { ring: Vec::new(), head: 0, cap };
        proof {
            assert(h@ =~= HubView { cap: cap as nat, head: 0, window: Seq::<ChatView>::empty() });
        }
        h
    }

    /// The fixed capacity this hub was created with.
    pub fn capacity(&self) -> (c: usize)
        ensures
            c as nat == self@.cap,
    {
        self.cap
    }

    /// The sequence number of the next publication.
    pub fn next_seq(&self) -> (n: u64)
        ensures
            n as nat == self@.head,
    {
        self.head
    }

    /// Publishes one event, exactly as [`spec_publish`] says: non-blocking,
    /// always succeeds, evicts the oldest retained event when full.
    pub fn publish(&mut self, m: ChatMessage)
        requires
            old(self)@.wf(),
            old(self)@.head < u64::MAX,
        ensures
            final(self)@.wf(),
            final(self)@ == spec_publish(old(self)@, m@),
    {
        if self.ring.len() >= self.cap {
            self.ring.remove(0);
        }
        self.ring.push(m);
        self.head = self.head + 1;
        proof {
            assert(self@ =~= spec_publish(old(self)@, m@));
        }
    }

    /// A new subscription whose cursor starts at the hub's current head: it
    /// never observes publications made before it was created.
    pub fn subscribe(&self) -> (s: Subscription)
        ensures
            s@ == self@.head,
    {
        Subscription { next: self.head }
    }

    /// One non-blocking receive attempt for `sub`, exactly as
    /// [`spec_receive`] says. The hub itself is not changed, and no cursor
    /// but `sub`'s is touched.
    pub fn try_receive(&self, sub: &mut Subscription) -> (r: RecvOutcome)
        requires
            self@.wf(),
        ensures
            (r@, final(sub)@) == spec_receive(self@, old(sub)@),
    {
        if sub.next >= self.head {
            RecvOutcome::Empty
        } else {
            let behind = self.head - sub.next;
            if behind > self.ring.len() as u64 {
                sub.next = self.head - self.ring.len() as u64;
                RecvOutcome::Lagged
            } else {
                let idx = self.ring.len() - behind as usize;
                let m = self.ring[idx].clone();
                sub.next = sub.next + 1;
                RecvOutcome::Message(m)
            }
        }
    }
}

} // verus!
