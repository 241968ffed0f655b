//! Ordered, multi-listener broadcast queues and the bidirectional
//! request/response queue used for parent-child layout negotiation.
//!
//! An `EventQueue` is an append-only sequence of events; each consumer holds
//! an independent `Listener` cursor, so every listener sees the full event
//! history from its creation point onward, in emission order.

use vstd::prelude::*;

verus! {

/// A payload-free change notification emitted by an observable cell.
#[derive(Clone, Copy, Debug, PartialEq, Eq, Structural)]
pub struct Change;

/// The notification a widget emits just before it is torn down.
#[derive(Clone, Copy, Debug, PartialEq, Eq, Structural)]
pub struct DropEvent;

/// An append-only, multi-consumer sequence of events.
pub struct EventQueue<E> {
    events: Vec<E>,
}

/// An independent cursor into an `EventQueue`, created by `listen`.
///
/// The cursor starts at the queue's tail at creation time, so a listener
/// never sees events emitted before it existed.
pub struct Listener {
    pos: usize,
}

impl<E> View for EventQueue<E> {
    type V = Seq<E>;

    closed spec fn view(&self) -> Seq<E> {
        self.events@
    }
}

impl Listener {
    /// The cursor position: the number of already-consumed events.
    pub closed spec fn pos_spec(&self) -> int {
        self.pos as int
    }
}

/// The events of `q` that a listener with cursor `pos` has not yet drained.
/// A cursor beyond the queue (possible only if the listener is paired with
/// the wrong queue) has nothing pending.
pub open spec fn pending<E>(q: Seq<E>, pos: int) -> Seq<E> {
    if 0 <= pos <= q.len() {
        q.subrange(pos, q.len() as int)
    } else {
        Seq::empty()
    }
}

impl<E: Copy> EventQueue<E> {
    /// An empty queue with no history.
    pub fn new() -> (q: EventQueue<E>)
        ensures
            q@ == Seq::<E>::empty(),
    {
        EventQueue { events: Vec::new() }
    }

    /// Appends one event, visible to all current and future listeners.
    pub fn emit(&mut self, ev: E)
        ensures
            final(self)@ == old(self)@.push(ev),
    {
        self.events.push(ev);
    }

    /// The number of events ever emitted.
    pub fn len(&self) -> (n: usize)
        ensures
            n == self@.len(),
    {
        self.events.len()
    }

    /// Creates a cursor starting at the current tail: events already emitted
    /// are never seen by the new listener.
    pub fn listen(&self) -> (l: Listener)
        ensures
            l.pos_spec() == self@.len(),
            pending(self@, l.pos_spec()) == Seq::<E>::empty(),
    {
        let l = Listener { pos: self.events.len() };
        proof {
            assert(pending(self@, l.pos_spec()) =~= Seq::<E>::empty());
        }
        l
    }

    /// Yields every event since the listener's last drain, oldest first, and
    /// advances the cursor: each event is yielded exactly once per listener.
    pub fn drain(&self, l: &mut Listener) -> (evs: Vec<E>)
        ensures
            evs@ == pending(self@, old(l).pos_spec()),
            final(l).pos_spec() == self@.len(),
            pending(self@, final(l).pos_spec()) == Seq::<E>::empty(),
    {
        let mut evs: Vec<E> = Vec::new();
        let n = self.events.len();
        if l.pos > n {
            l.pos = n;
            proof {
                assert(evs@ =~= pending(self@, old(l).pos_spec()));
                assert(pending(self@, final(l).pos_spec()) =~= Seq::<E>::empty());
            }
            return evs;
        }
        let start = l.pos;
        let mut i = start;
        while i < n
            invariant
                start <= i <= n,
                n == self@.len(),
                start == old(l).pos_spec(),
                evs@ == self@.subrange(start as int, i as int),
            decreases n - i,
        {
            let ev = self.events[i];
            evs.push(ev);
            proof {
                assert(evs@ =~= self@.subrange(start as int, i + 1 as int));
            }
            i = i + 1;
        }
        l.pos = n;
        proof {
            assert(evs@ =~= pending(self@, old(l).pos_spec()));
            assert(pending(self@, final(l).pos_spec()) =~= Seq::<E>::empty());
        }
        evs
    }

    /// Non-consuming count of pending events: the cursor does not move.
    pub fn peek_count(&self, l: &Listener) -> (n: usize)
        ensures
            n == pending(self@, l.pos_spec()).len(),
    {
        if l.pos > self.events.len() {
            0
        } else {
            self.events.len() - l.pos
        }
    }
}

/// Listener independence: a listener's successive drains concatenate to
/// exactly the events emitted since its cursor. Two listeners created before
/// a burst therefore reconstruct identical event sequences in identical
/// order, however their drains interleave: a drain moves only its own cursor
/// (the queue itself is taken immutably), so one listener's drains never
/// disturb another's. Here `q2` is the queue after further emissions extended
/// the contents `q1` at which the first drain happened.
pub proof fn lemma_listener_independence<E>(q1: Seq<E>, q2: Seq<E>, c: int)
    requires
        0 <= c <= q1.len(),
        q1.len() <= q2.len(),
        q2.subrange(0, q1.len() as int) == q1,
    ensures
        pending(q1, c) + pending(q2, q1.len() as int) == pending(q2, c),
{
    assert forall|k: int| 0 <= k < q1.len() implies q1[k] == q2[k] by {
        assert(q2.subrange(0, q1.len() as int)[k] == q2[k]);
    }
    assert(pending(q1, c) + pending(q2, q1.len() as int) =~= pending(q2, c));
}

/// A listener that drained up to the tail has nothing pending until a new
/// emission arrives, and an emission extends every listener's pending
/// sequence by exactly that event.
pub proof fn lemma_emit_extends_pending<E>(q: Seq<E>, ev: E, pos: int)
    requires
        0 <= pos <= q.len(),
    ensures
        pending(q.push(ev), pos) == pending(q, pos).push(ev),
{
    assert(pending(q.push(ev), pos) =~= pending(q, pos).push(ev));
}

/// Draining twice without an intervening emission yields nothing the second
/// time: no event is ever delivered twice to one listener.
pub proof fn lemma_no_redelivery<E>(q: Seq<E>)
    ensures
        pending(q, q.len() as int) == Seq::<E>::empty(),
{
    assert(pending(q, q.len() as int) =~= Seq::<E>::empty());
}

/// A paired channel: the primary end (the requester, e.g. a container) and
/// the secondary end (the responder, e.g. a child) each own a single-message
/// outbound slot where the newest message overwrites an unconsumed older one.
/// A message emitted on one end appears only at the other end, never looped
/// back.
pub struct BidirQueue<Req, Resp> {
    to_secondary: Option<Req>,
    to_primary: Option<Resp>,
}

/// The two pending slots of a `BidirQueue`.
pub struct BidirView<Req, Resp> {
    /// The newest unconsumed message travelling primary to secondary.
    pub to_secondary: Option<Req>,
    /// The newest unconsumed message travelling secondary to primary.
    pub to_primary: Option<Resp>,
}

impl<Req, Resp> View for BidirQueue<Req, Resp> {
    type V = BidirView<Req, Resp>;

    closed spec fn view(&self) -> BidirView<Req, Resp> {
        BidirView { to_secondary: self.to_secondary, to_primary: self.to_primary }
    }
}

impl<Req, Resp> BidirQueue<Req, Resp> {
    /// A channel with nothing pending in either direction.
    pub fn new() -> (q: BidirQueue<Req, Resp>)
        ensures
            q@.to_secondary is None,
            q@.to_primary is None,
    {
        BidirQueue { to_secondary: None, to_primary: None }
    }

    /// Emit from the primary end: visible only to the secondary end.
    pub fn emit_primary(&mut self, req: Req)
        ensures
            final(self)@.to_secondary == Some(req),
            final(self)@.to_primary == old(self)@.to_primary,
    {
        self.to_secondary = Some(req);
    }

    /// Emit from the secondary end: visible only to the primary end.
    pub fn emit_secondary(&mut self, resp: Resp)
        ensures
            final(self)@.to_primary == Some(resp),
            final(self)@.to_secondary == old(self)@.to_secondary,
    {
        self.to_primary = Some(resp);
    }

    /// Take the newest message pending at the secondary end.
    pub fn retrieve_newest_secondary(&mut self) -> (r: Option<Req>)
        ensures
            r == old(self)@.to_secondary,
            final(self)@.to_secondary is None,
            final(self)@.to_primary == old(self)@.to_primary,
    {
        self.to_secondary.take()
    }

    /// Take the newest message pending at the primary end.
    pub fn retrieve_newest_primary(&mut self) -> (r: Option<Resp>)
        ensures
            r == old(self)@.to_primary,
            final(self)@.to_primary is None,
            final(self)@.to_secondary == old(self)@.to_secondary,
    {
        self.to_primary.take()
    }
}

} // verus!
