//! The declarative per-widget dispatch pipeline: an ordered table of
//! (event source, topic) to handler bindings, built once at widget
//! construction and consulted once per update tick.
//!
//! Sources, topics and handlers are identified by numeric keys so a widget
//! can defunctionalize its handlers into a dispatch method. Within a tick,
//! bindings are processed in registration order; within one source, events
//! are processed in emission order; an event whose topic has no registered
//! handler is a defined no-op.

use vstd::prelude::*;

verus! {

/// An event type that derives a topic key from its own variant, e.g.
/// a press event versus a release event.
pub trait Event {
    /// The topic key of this event, as a spec-level function of the value.
    spec fn key_spec(&self) -> u64;

    /// Computes the topic key used to select a handler.
    fn get_key(&self) -> (k: u64)
        ensures
            k == self.key_spec(),
    ;
}

/// One (topic, handler) registration of a keyed binding.
#[derive(Clone, Copy, Debug, PartialEq, Eq, Structural)]
pub struct KeyedHandler {
    pub topic: u64,
    pub handler: u64,
}

/// What a binding does with a drained event.
pub enum BindingKind {
    /// A change binding: the handler runs unconditionally for every event,
    /// with no topic filtering (used for observable-change queues).
    Change(u64),
    /// A keyed binding: the handler registered under the event's exact topic
    /// key runs; events with no registered handler are silently skipped.
    Keyed(Vec<KeyedHandler>),
}

/// One binding: an event source identity plus its handler registration.
pub struct Binding {
    pub source: u64,
    pub kind: BindingKind,
}

/// The ordered dispatch table of one widget.
pub struct Pipeline {
    pub bindings: Vec<Binding>,
}

/// The first handler registered under `topic`, scanning registrations in
/// order.
pub open spec fn first_match(table: Seq<KeyedHandler>, topic: u64) -> Option<u64>
    decreases table.len(),
{
    if table.len() == 0 {
        None
    } else if table[0].topic == topic {
        Some(table[0].handler)
    } else {
        first_match(table.drop_first(), topic)
    }
}

/// The handler a binding selects for an event with topic `topic`.
pub open spec fn handler_for_kind(kind: BindingKind, topic: u64) -> Option<u64> {
    match kind {
        BindingKind::Change(h) => Some(h),
        BindingKind::Keyed(table) => first_match(table@, topic),
    }
}

impl Pipeline {
    /// An empty pipeline; bindings are appended in registration order.
    pub fn new() -> (p: Pipeline)
        ensures
            p.bindings@ == Seq::<Binding>::empty(),
    {
        Pipeline { bindings: Vec::new() }
    }

    /// Registers a change binding for `source`: `handler` runs for every
    /// drained event.
    pub fn add_change(&mut self, source: u64, handler: u64)
        ensures
            final(self).bindings@ == old(self).bindings@.push(
                Binding { source, kind: BindingKind::Change(handler) },
            ),
    {
        self.bindings.push(Binding { source, kind: BindingKind::Change(handler) });
    }

    /// Registers a keyed binding for `source` with the given topic table.
    pub fn add_keyed(&mut self, source: u64, table: Vec<KeyedHandler>)
        ensures
            final(self).bindings@ == old(self).bindings@.push(
                Binding { source, kind: BindingKind::Keyed(table) },
            ),
    {
        self.bindings.push(Binding { source, kind: BindingKind::Keyed(table) });
    }

    /// The number of bindings, in registration order.
    pub fn len(&self) -> (n: usize)
        ensures
            n == self.bindings@.len(),
    {
        self.bindings.len()
    }

    /// Looks up the handler that binding `i` selects for `topic`.
    pub fn handler_for(&self, i: usize, topic: u64) -> (r: Option<u64>)
        requires
            i < self.bindings@.len(),
        ensures
            r == handler_for_kind(self.bindings@[i as int].kind, topic),
    {
        let b: &Binding = &self.bindings[i];
        proof {
            assert(*b == self.bindings@[i as int]);
        }
        match &b.kind {
            BindingKind::Change(h) => Some(*h),
            BindingKind::Keyed(table) => {
                let ghost whole = table@;
                proof {
                    assert(handler_for_kind(b.kind, topic) == first_match(whole, topic));
                    assert(whole.subrange(0, whole.len() as int) =~= whole);
                }
                let mut j: usize = 0;
                while j < table.len()
                    invariant
                        i < self.bindings@.len(),
                        handler_for_kind(self.bindings@[i as int].kind, topic) == first_match(
                            whole,
                            topic,
                        ),
                        j <= table@.len(),
                        table@ == whole,
                        first_match(whole, topic) == first_match(
                            whole.subrange(j as int, whole.len() as int),
                            topic,
                        ),
                    decreases table@.len() - j,
                {
                    let entry = table[j];
                    proof {
                        assert(whole.subrange(j as int, whole.len() as int)[0] == whole[j as int]);
                        assert(whole.subrange(j as int, whole.len() as int).drop_first()
                            =~= whole.subrange(j + 1 as int, whole.len() as int));
                    }
                    if entry.topic == topic {
                        proof {
                            assert(whole.subrange(j as int, whole.len() as int).len() > 0);
                            assert(first_match(whole, topic) == Some(entry.handler));
                        }
                        return Some(entry.handler);
                    }
                    j = j + 1;
                }
                proof {
                    assert(whole.subrange(whole.len() as int, whole.len() as int).len() == 0);
                }
                None
            },
        }
    }
}

/// Exact-topic dispatch: a keyed binding selects a handler only when an entry
/// was registered under the event's exact topic, and the selected handler is
/// the first such registration; with no registration under the topic, the
/// lookup declines and the event is a defined no-op.
pub proof fn lemma_keyed_exact(table: Seq<KeyedHandler>, topic: u64)
    ensures
        first_match(table, topic) is Some ==> exists|i: int|
            0 <= i < table.len() && table[i].topic == topic && table[i].handler
                == first_match(table, topic)->Some_0,
        first_match(table, topic) is None ==> forall|i: int|
            0 <= i < table.len() ==> table[i].topic != topic,
    decreases table.len(),
{
    if table.len() > 0 {
        if table[0].topic == topic {
        } else {
            lemma_keyed_exact(table.drop_first(), topic);
            if first_match(table, topic) is Some {
                let i = choose|i: int|
                    0 <= i < table.drop_first().len() && table.drop_first()[i].topic == topic
                        && table.drop_first()[i].handler == first_match(
                        table.drop_first(),
                        topic,
                    )->Some_0;
                assert(table[i + 1] == table.drop_first()[i]);
            } else {
                assert(forall|i: int|
                    1 <= i < table.len() ==> table[i] == table.drop_first()[i - 1]);
            }
        }
    }
}

} // verus!
