//! The observable-value primitive: a mutable cell that broadcasts a
//! payload-free change event on every mutation through its setter.

use vstd::prelude::*;

use crate::event::Change;
use crate::event::EventQueue;

verus! {

/// A value with a change-broadcast channel. Every call of `set` emits exactly
/// one change event before it returns; consumers re-read the value with
/// `get` when their listener drains the notification.
pub struct ObservableCell<T> {
    value: T,
    /// The change-broadcast queue; listeners are created with `on_change().listen()`.
    on_change: EventQueue<Change>,
}

/// The value of an observable cell together with its full notification
/// history.
pub struct ObservableView<T> {
    pub value: T,
    pub changes: Seq<Change>,
}

impl<T> View for ObservableCell<T> {
    type V = ObservableView<T>;

    closed spec fn view(&self) -> ObservableView<T> {
        ObservableView { value: self.value, changes: self.on_change@ }
    }
}

impl<T> ObservableCell<T> {
    /// A cell holding `value` with an empty notification history.
    pub fn new(value: T) -> (c: ObservableCell<T>)
        ensures
            c@.value == value,
            c@.changes == Seq::<Change>::empty(),
    {
        ObservableCell { value, on_change: EventQueue::new() }
    }

    /// Reads the value; no side effect.
    pub fn get(&self) -> (v: &T)
        ensures
            *v == self@.value,
    {
        &self.value
    }

    /// Replaces the value and emits exactly one change event, synchronously,
    /// visible to listeners on their next drain. Always total.
    pub fn set(&mut self, value: T)
        ensures
            final(self)@.value == value,
            final(self)@.changes == old(self)@.changes.push(Change),
    {
        self.value = value;
        self.on_change.emit(Change);
    }

    /// The change-broadcast queue, for creating listeners.
    pub fn on_change(&self) -> (q: &EventQueue<Change>)
        ensures
            q@ == self@.changes,
    {
        &self.on_change
    }
}

} // verus!
