//! Widget-level plumbing shared by all widgets: visibility, repaint marking,
//! interaction flags, window input events, the per-widget layout slot, and
//! the capability trait a layout container requires of its children.

use vstd::prelude::*;

use crate::event::DropEvent;
use crate::event::EventQueue;
use crate::geom::Point;
use crate::geom::Rect;
use crate::pipe::Event;

verus! {

/// Whether a widget takes part in drawing.
#[derive(Clone, Copy, Debug, PartialEq, Eq, Structural)]
pub enum Visibility {
    Visible,
    Invisible,
}

impl Default for Visibility {
    fn default() -> (r: Visibility)
        ensures
            r == Visibility::Visible,
    {
        Visibility::Visible
    }
}

/// A widget's pending draw-command batch, reduced to the one piece of state
/// the update core owns: the repaint flag. The display backend that consumes
/// command batches is an external collaborator.
#[derive(Clone, Copy, Debug, PartialEq, Eq, Structural)]
pub struct CommandGroup {
    /// True when the widget must re-issue its draw commands.
    pub repaint_needed: bool,
}

impl CommandGroup {
    pub fn new() -> (c: CommandGroup)
        ensures
            !c.repaint_needed,
    {
        CommandGroup { repaint_needed: false }
    }

    /// Flags the widget for repainting on the next draw pass.
    pub fn repaint(&mut self)
        ensures
            final(self).repaint_needed,
    {
        self.repaint_needed = true;
    }
}

/// The transient pointer/focus flags of a widget.
#[derive(Clone, Copy, Debug, PartialEq, Eq, Structural)]
pub struct InteractionState {
    pub pressed: bool,
    pub hovered: bool,
    pub focused: bool,
}

impl InteractionState {
    /// No interaction in progress.
    pub fn empty() -> (s: InteractionState)
        ensures
            s == (InteractionState { pressed: false, hovered: false, focused: false }),
    {
        InteractionState { pressed: false, hovered: false, focused: false }
    }
}

/// Identity of a pointer button.
#[derive(Clone, Copy, Debug, PartialEq, Eq, Structural)]
pub enum MouseButton {
    Left,
    Middle,
    Right,
}

/// Topic key of a pointer press.
pub const KEY_MOUSE_PRESS: u64 = 1;

/// Topic key of a pointer release.
pub const KEY_MOUSE_RELEASE: u64 = 2;

/// Topic key of a pointer move.
pub const KEY_MOUSE_MOVE: u64 = 3;

/// Topic key of a global focus-clearing event.
pub const KEY_CLEAR_FOCUS: u64 = 4;

/// A discriminated input event from the window collaborator, consumable like
/// any other keyed event-queue source.
#[derive(Clone, Copy, Debug, PartialEq, Eq, Structural)]
pub enum WindowEvent {
    MousePress(Point, MouseButton),
    MouseRelease(Point, MouseButton),
    MouseMove(Point),
    ClearFocus,
}

impl Event for WindowEvent {
    open spec fn key_spec(&self) -> u64 {
        match *self {
            WindowEvent::MousePress(_, _) => KEY_MOUSE_PRESS,
            WindowEvent::MouseRelease(_, _) => KEY_MOUSE_RELEASE,
            WindowEvent::MouseMove(_) => KEY_MOUSE_MOVE,
            WindowEvent::ClearFocus => KEY_CLEAR_FOCUS,
        }
    }

    fn get_key(&self) -> (k: u64) {
        match *self {
            WindowEvent::MousePress(_, _) => KEY_MOUSE_PRESS,
            WindowEvent::MouseRelease(_, _) => KEY_MOUSE_RELEASE,
            WindowEvent::MouseMove(_) => KEY_MOUSE_MOVE,
            WindowEvent::ClearFocus => KEY_CLEAR_FOCUS,
        }
    }
}

/// The layout-negotiation slot of a widget: its registered identifier with
/// the current parent, an inbox holding at most one pending assigned
/// rectangle, and an outbox holding at most one pending upward report.
#[derive(Clone, Copy, Debug, PartialEq, Eq, Structural)]
pub struct SlotView {
    pub id: Option<u64>,
    pub inbox: Option<Rect>,
    pub outbox: Option<Rect>,
}

/// Per-widget layout mailbox. A widget has at most one active parent-layout
/// binding at a time; re-registering replaces the old binding and drops any
/// message still pending under it.
pub struct WidgetLayoutEvents {
    id: Option<u64>,
    inbox: Option<Rect>,
    outbox: Option<Rect>,
}

impl View for WidgetLayoutEvents {
    type V = SlotView;

    closed spec fn view(&self) -> SlotView {
        SlotView { id: self.id, inbox: self.inbox, outbox: self.outbox }
    }
}

impl WidgetLayoutEvents {
    pub open spec fn wf(&self) -> bool {
        &&& (self@.inbox is Some ==> self@.inbox->Some_0.in_bounds())
        &&& (self@.outbox is Some ==> self@.outbox->Some_0.in_bounds())
    }

    /// An unbound slot: the widget is unmanaged.
    pub fn new() -> (s: WidgetLayoutEvents)
        ensures
            s@ == (SlotView { id: None, inbox: None, outbox: None }),
            s.wf(),
    {
        WidgetLayoutEvents { id: None, inbox: None, outbox: None }
    }

    /// Replaces the parent binding, severing the previous relationship and
    /// discarding any pending messages of the old binding.
    pub fn update(&mut self, binding: Option<u64>)
        ensures
            final(self)@ == (SlotView { id: binding, inbox: None, outbox: None }),
            final(self).wf(),
    {
        self.id = binding;
        self.inbox = None;
        self.outbox = None;
    }

    /// The identifier assigned by the current parent, if managed.
    pub fn id(&self) -> (r: Option<u64>)
        ensures
            r == self@.id,
    {
        self.id
    }

    /// Drains the inbox: the newest rectangle the parent assigned, if any.
    pub fn receive(&mut self) -> (r: Option<Rect>)
        ensures
            r == old(self)@.inbox,
            final(self)@ == (SlotView { inbox: None, ..old(self)@ }),
    {
        self.inbox.take()
    }

    /// Reports the widget's rectangle upward; a no-op when unmanaged. The
    /// newest report overwrites an unconsumed older one.
    pub fn notify(&mut self, r: Rect)
        requires
            r.in_bounds(),
        ensures
            final(self)@ == (SlotView {
                outbox: if old(self)@.id is Some {
                    Some(r)
                } else {
                    old(self)@.outbox
                },
                ..old(self)@
            }),
            old(self).wf() ==> final(self).wf(),
    {
        if self.id.is_some() {
            self.outbox = Some(r);
        }
    }

    /// Places a parent-assigned rectangle in the inbox, overwriting an
    /// unconsumed older one.
    pub fn give(&mut self, r: Rect)
        requires
            r.in_bounds(),
        ensures
            final(self)@ == (SlotView { inbox: Some(r), ..old(self)@ }),
            old(self).wf() ==> final(self).wf(),
    {
        self.inbox = Some(r);
    }

    /// Takes the pending upward report, if any.
    pub fn take_report(&mut self) -> (r: Option<Rect>)
        ensures
            r == old(self)@.outbox,
            final(self)@ == (SlotView { outbox: None, ..old(self)@ }),
            old(self).wf() ==> final(self).wf(),
    {
        self.outbox.take()
    }
}

/// The minimal capability set a layout container requires of a child widget:
/// bounds, the layout slot, and the drop-notification channel. The widget set
/// is open-ended; a container never holds a back-reference to a child, only
/// the numeric identifier and the communication slots.
pub trait LayableWidget: Sized {
    /// The widget's internal invariant.
    spec fn wf(&self) -> bool;

    /// The widget's current absolute rectangle.
    spec fn rect_of(&self) -> Rect;

    /// The widget's layout slot.
    spec fn slot_of(&self) -> SlotView;

    /// The widget's drop-notification history.
    spec fn drops_of(&self) -> Seq<DropEvent>;

    /// All widget state other than the layout slot, the rectangle and the
    /// repaint flag is equal in `self` and `other`.
    spec fn same_core(&self, other: &Self) -> bool;

    proof fn lemma_same_core_refl(&self)
        ensures
            self.same_core(self),
    ;

    proof fn lemma_same_core_trans(a: Self, b: Self, c: Self)
        requires
            a.same_core(&b),
            b.same_core(&c),
        ensures
            a.same_core(&c),
    ;

    /// A well-formed widget keeps its rectangle within coordinate range.
    proof fn lemma_wf_rect(&self)
        requires
            self.wf(),
        ensures
            self.rect_of().in_bounds(),
    ;

    /// A well-formed widget keeps its pending layout messages within
    /// coordinate range.
    proof fn lemma_wf_slot(&self)
        requires
            self.wf(),
        ensures
            self.slot_of().inbox is Some ==> self.slot_of().inbox->Some_0.in_bounds(),
            self.slot_of().outbox is Some ==> self.slot_of().outbox->Some_0.in_bounds(),
    ;

    fn bounds(&self) -> (r: Rect)
        ensures
            r == self.rect_of(),
    ;

    fn layout_id(&self) -> (r: Option<u64>)
        ensures
            r == self.slot_of().id,
    ;

    /// Binds the widget to (or unbinds it from) a parent layout, discarding
    /// pending layout messages of the old binding.
    fn listen_to_layout(&mut self, binding: Option<u64>)
        requires
            old(self).wf(),
        ensures
            final(self).wf(),
            final(self).slot_of() == (SlotView { id: binding, inbox: None, outbox: None }),
            final(self).rect_of() == old(self).rect_of(),
            final(self).drops_of() == old(self).drops_of(),
            final(self).same_core(old(self)),
    ;

    /// Sets the widget's rectangle from outside (e.g. restoring it on
    /// removal), reporting upward when managed.
    fn set_ctxt_rect(&mut self, r: Rect)
        requires
            old(self).wf(),
            r.in_bounds(),
        ensures
            final(self).wf(),
            final(self).rect_of() == r,
            final(self).slot_of() == (SlotView {
                outbox: if old(self).slot_of().id is Some {
                    Some(r)
                } else {
                    old(self).slot_of().outbox
                },
                ..old(self).slot_of()
            }),
            final(self).drops_of() == old(self).drops_of(),
            final(self).same_core(old(self)),
    ;

    /// Takes the widget's pending upward layout report, if any.
    fn take_report(&mut self) -> (r: Option<Rect>)
        requires
            old(self).wf(),
        ensures
            final(self).wf(),
            r == old(self).slot_of().outbox,
            final(self).slot_of() == (SlotView { outbox: None, ..old(self).slot_of() }),
            final(self).rect_of() == old(self).rect_of(),
            final(self).drops_of() == old(self).drops_of(),
            final(self).same_core(old(self)),
    ;

    /// Places a parent-assigned rectangle in the widget's inbox.
    fn put_assignment(&mut self, r: Rect)
        requires
            old(self).wf(),
            r.in_bounds(),
        ensures
            final(self).wf(),
            final(self).slot_of() == (SlotView { inbox: Some(r), ..old(self).slot_of() }),
            final(self).rect_of() == old(self).rect_of(),
            final(self).drops_of() == old(self).drops_of(),
            final(self).same_core(old(self)),
    ;

    /// The widget's drop-notification queue, for parents to listen on.
    fn drop_event(&self) -> (q: &EventQueue<DropEvent>)
        ensures
            q@ == self.drops_of(),
    ;
}

} // verus!
