//! Checkbox widget: boolean input driven by the declarative dispatch
//! pipeline. Its entire update pass is specified by the pure transition
//! function `cb_update`, folding the pipeline's handlers over the pending
//! window events in emission order.

use vstd::prelude::*;

use crate::base::CommandGroup;
use crate::base::InteractionState;
use crate::base::LayableWidget;
use crate::base::MouseButton;
use crate::base::SlotView;
use crate::base::Visibility;
use crate::base::WidgetLayoutEvents;
use crate::base::WindowEvent;
use crate::base::KEY_CLEAR_FOCUS;
use crate::base::KEY_MOUSE_MOVE;
use crate::base::KEY_MOUSE_PRESS;
use crate::base::KEY_MOUSE_RELEASE;
use crate::event::Change;
use crate::event::DropEvent;
use crate::event::EventQueue;
use crate::event::Listener;
use crate::event::pending;
use crate::geom::rect_contains;
use crate::geom::Point;
use crate::geom::Rect;
use crate::geom::Size;
use crate::observed::ObservableCell;
use crate::pipe::first_match;
use crate::pipe::BindingKind;
use crate::pipe::Event;
use crate::pipe::KeyedHandler;
use crate::pipe::Pipeline;

verus! {

/// An event that either starts (`true`) or stops (`false`) a toggled
/// condition, carrying a payload such as the pointer position.
#[derive(Clone, Copy, Debug, PartialEq, Eq, Structural)]
pub enum ToggledEvent<T> {
    Start(T),
    Stop(T),
}

impl<T> ToggledEvent<T> {
    pub fn new(start: bool, value: T) -> (r: ToggledEvent<T>)
        ensures
            r == if start {
                ToggledEvent::Start(value)
            } else {
                ToggledEvent::Stop(value)
            },
    {
        if start {
            ToggledEvent::Start(value)
        } else {
            ToggledEvent::Stop(value)
        }
    }
}

/// An empty event payload.
#[derive(Clone, Copy, Debug, PartialEq, Eq, Structural)]
pub struct NoPayload;

/// Topic key of a checkbox press.
pub const KEY_PRESS: u64 = 10;

/// Topic key of a checkbox release.
pub const KEY_RELEASE: u64 = 11;

/// Topic key of the checkbox becoming checked.
pub const KEY_CHECK: u64 = 12;

/// Topic key of the checkbox becoming unchecked.
pub const KEY_UNCHECK: u64 = 13;

/// Topic key of the pointer entering the checkbox bounds.
pub const KEY_BEGIN_HOVER: u64 = 14;

/// Topic key of the pointer leaving the checkbox bounds.
pub const KEY_END_HOVER: u64 = 15;

/// Topic key of focus gained.
pub const KEY_FOCUS: u64 = 16;

/// Topic key of focus lost.
pub const KEY_BLUR: u64 = 17;

/// Events emitted by a checkbox.
#[derive(Clone, Copy, Debug, PartialEq, Eq, Structural)]
pub enum CheckboxEvent {
    /// Emitted when the checkbox is pressed or released.
    Press(ToggledEvent<Point>),
    /// Emitted when the checkbox is checked or unchecked.
    Check(ToggledEvent<Point>),
    /// Emitted when the pointer enters (start) or leaves (stop) the bounds.
    MouseHover(ToggledEvent<Point>),
    /// Emitted when focus is gained (start) or lost (stop).
    Focus(ToggledEvent<NoPayload>),
}

impl Event for CheckboxEvent {
    open spec fn key_spec(&self) -> u64 {
        match *self {
            CheckboxEvent::Press(ToggledEvent::Start(_)) => KEY_PRESS,
            CheckboxEvent::Press(ToggledEvent::Stop(_)) => KEY_RELEASE,
            CheckboxEvent::Check(ToggledEvent::Start(_)) => KEY_CHECK,
            CheckboxEvent::Check(ToggledEvent::Stop(_)) => KEY_UNCHECK,
            CheckboxEvent::MouseHover(ToggledEvent::Start(_)) => KEY_BEGIN_HOVER,
            CheckboxEvent::MouseHover(ToggledEvent::Stop(_)) => KEY_END_HOVER,
            CheckboxEvent::Focus(ToggledEvent::Start(_)) => KEY_FOCUS,
            CheckboxEvent::Focus(ToggledEvent::Stop(_)) => KEY_BLUR,
        }
    }

    fn get_key(&self) -> (k: u64) {
        match *self {
            CheckboxEvent::Press(ToggledEvent::Start(_)) => KEY_PRESS,
            CheckboxEvent::Press(ToggledEvent::Stop(_)) => KEY_RELEASE,
            CheckboxEvent::Check(ToggledEvent::Start(_)) => KEY_CHECK,
            CheckboxEvent::Check(ToggledEvent::Stop(_)) => KEY_UNCHECK,
            CheckboxEvent::MouseHover(ToggledEvent::Start(_)) => KEY_BEGIN_HOVER,
            CheckboxEvent::MouseHover(ToggledEvent::Stop(_)) => KEY_END_HOVER,
            CheckboxEvent::Focus(ToggledEvent::Start(_)) => KEY_FOCUS,
            CheckboxEvent::Focus(ToggledEvent::Stop(_)) => KEY_BLUR,
        }
    }
}

/// Interaction status a painter collaborator receives.
#[derive(Clone, Copy, Debug, PartialEq, Eq, Structural)]
pub enum ControlState {
    Normal(InteractionState),
    Disabled,
}

/// The immutable snapshot a checkbox derives each frame for the painter
/// collaborator.
#[derive(Clone, Copy, Debug, PartialEq, Eq, Structural)]
pub struct CheckboxState {
    pub rect: Rect,
    pub checked: bool,
    pub state: ControlState,
}

/// Source identity of the checked cell's change queue.
pub const SRC_CHECKED_CHANGE: u64 = 1;

/// Source identity of the disabled cell's change queue.
pub const SRC_DISABLED_CHANGE: u64 = 2;

/// Source identity of the window input queue.
pub const SRC_WINDOW: u64 = 3;

/// Handler identity: flag the widget for repaint.
pub const H_REPAINT: u64 = 1;

/// Handler identity: pointer press.
pub const H_MOUSE_PRESS: u64 = 2;

/// Handler identity: pointer release.
pub const H_MOUSE_RELEASE: u64 = 3;

/// Handler identity: pointer move.
pub const H_MOUSE_MOVE: u64 = 4;

/// Handler identity: global focus clearing.
pub const H_CLEAR_FOCUS: u64 = 5;

/// The topic table of the checkbox's window binding, in registration order.
pub open spec fn checkbox_topics() -> Seq<KeyedHandler> {
    seq![
        KeyedHandler { topic: KEY_MOUSE_PRESS, handler: H_MOUSE_PRESS },
        KeyedHandler { topic: KEY_MOUSE_RELEASE, handler: H_MOUSE_RELEASE },
        KeyedHandler { topic: KEY_MOUSE_MOVE, handler: H_MOUSE_MOVE },
        KeyedHandler { topic: KEY_CLEAR_FOCUS, handler: H_CLEAR_FOCUS },
    ]
}

/// The checkbox's dispatch table: both observable-change bindings first, the
/// keyed window binding last, in registration order.
pub open spec fn checkbox_pipe_wf(p: Pipeline) -> bool {
    let b = p.bindings@;
    &&& b.len() == 3
    &&& b[0].source == SRC_CHECKED_CHANGE
    &&& b[0].kind matches BindingKind::Change(h0) && h0 == H_REPAINT
    &&& b[1].source == SRC_DISABLED_CHANGE
    &&& b[1].kind matches BindingKind::Change(h1) && h1 == H_REPAINT
    &&& b[2].source == SRC_WINDOW
    &&& b[2].kind matches BindingKind::Keyed(t) && t@ == checkbox_topics()
}

/// The handler the window binding selects for an input event.
pub open spec fn window_handler_of(ev: WindowEvent) -> u64 {
    match ev {
        WindowEvent::MousePress(_, _) => H_MOUSE_PRESS,
        WindowEvent::MouseRelease(_, _) => H_MOUSE_RELEASE,
        WindowEvent::MouseMove(_) => H_MOUSE_MOVE,
        WindowEvent::ClearFocus => H_CLEAR_FOCUS,
    }
}

/// The checkbox topic table selects exactly the handler registered under the
/// event's topic.
pub proof fn lemma_topic_lookup(ev: WindowEvent)
    ensures
        first_match(checkbox_topics(), ev.key_spec()) == Some(window_handler_of(ev)),
{
    reveal_with_fuel(first_match, 6);
    let t = checkbox_topics();
    assert(t.drop_first()[0].topic == KEY_MOUSE_RELEASE);
    assert(t.drop_first().drop_first()[0].topic == KEY_MOUSE_MOVE);
    assert(t.drop_first().drop_first().drop_first()[0].topic == KEY_CLEAR_FOCUS);
}

/// The full observable state of a checkbox: values and notification histories
/// of its cells, interaction flags, geometry, its outbound event history, the
/// repaint flag, its layout slot and drop history, and the three pipeline
/// cursors.
pub struct CheckboxView {
    pub checked: bool,
    pub checked_changes: Seq<Change>,
    pub disabled: bool,
    pub disabled_changes: Seq<Change>,
    pub interaction: InteractionState,
    pub rect: Rect,
    pub out: Seq<CheckboxEvent>,
    pub repaint: bool,
    pub slot: SlotView,
    pub drops: Seq<DropEvent>,
    pub visibility: Visibility,
    pub ck_cursor: int,
    pub dis_cursor: int,
    pub win_cursor: int,
}

/// Effect of dispatching one window event through the pipeline's topic table
/// to its handler. Events whose condition fails leave the state unchanged.
pub open spec fn cb_step(v: CheckboxView, ev: WindowEvent) -> CheckboxView {
    match ev {
        WindowEvent::MousePress(pos, btn) => {
            if !v.disabled && btn == MouseButton::Left && rect_contains(v.rect, pos) {
                CheckboxView {
                    interaction: InteractionState { pressed: true, ..v.interaction },
                    out: v.out.push(CheckboxEvent::Press(ToggledEvent::Start(pos))),
                    repaint: true,
                    ..v
                }
            } else {
                v
            }
        },
        WindowEvent::MouseRelease(pos, btn) => {
            if !v.disabled && btn == MouseButton::Left && v.interaction.pressed {
                let now_checked = !v.checked;
                CheckboxView {
                    interaction: InteractionState {
                        pressed: false,
                        focused: true,
                        ..v.interaction
                    },
                    checked: now_checked,
                    checked_changes: v.checked_changes.push(Change),
                    out: v.out.push(CheckboxEvent::Press(ToggledEvent::Stop(pos))).push(
                        if now_checked {
                            CheckboxEvent::Check(ToggledEvent::Start(pos))
                        } else {
                            CheckboxEvent::Check(ToggledEvent::Stop(pos))
                        },
                    ),
                    repaint: true,
                    ..v
                }
            } else {
                v
            }
        },
        WindowEvent::MouseMove(pos) => {
            if rect_contains(v.rect, pos) {
                if !v.interaction.hovered {
                    CheckboxView {
                        interaction: InteractionState { hovered: true, ..v.interaction },
                        out: v.out.push(CheckboxEvent::MouseHover(ToggledEvent::Start(pos))),
                        repaint: true,
                        ..v
                    }
                } else {
                    v
                }
            } else {
                if v.interaction.hovered {
                    CheckboxView {
                        interaction: InteractionState { hovered: false, ..v.interaction },
                        out: v.out.push(CheckboxEvent::MouseHover(ToggledEvent::Stop(pos))),
                        repaint: true,
                        ..v
                    }
                } else {
                    v
                }
            }
        },
        WindowEvent::ClearFocus => CheckboxView {
            interaction: InteractionState { focused: false, ..v.interaction },
            ..v
        },
    }
}

/// Folds the window handlers over a burst of events, oldest first.
pub open spec fn cb_run(v: CheckboxView, evs: Seq<WindowEvent>) -> CheckboxView
    decreases evs.len(),
{
    if evs.len() == 0 {
        v
    } else {
        cb_run(cb_step(v, evs[0]), evs.drop_first())
    }
}

/// One whole update tick of a checkbox against the window queue `win`:
/// drain both change bindings (repaint on any pending notification), fold the
/// window handlers over the pending window events, emit a focus event when
/// the pass flipped the focus flag, then adopt a parent-assigned rectangle
/// from the layout inbox. Handler emissions during the pass are seen only on
/// the next tick: the cursors advance to the history lengths read at the
/// start of the pass.
pub open spec fn cb_update(v: CheckboxView, win: Seq<WindowEvent>) -> CheckboxView {
    let pend_ck = pending(v.checked_changes, v.ck_cursor).len() > 0;
    let pend_dis = pending(v.disabled_changes, v.dis_cursor).len() > 0;
    let v1 = CheckboxView {
        repaint: v.repaint || pend_ck || pend_dis,
        ck_cursor: v.checked_changes.len() as int,
        dis_cursor: v.disabled_changes.len() as int,
        win_cursor: win.len() as int,
        ..v
    };
    let v2 = cb_run(v1, pending(win, v.win_cursor));
    let v3 = if v2.interaction.focused != v.interaction.focused {
        CheckboxView {
            out: v2.out.push(
                CheckboxEvent::Focus(
                    if v2.interaction.focused {
                        ToggledEvent::Start(NoPayload)
                    } else {
                        ToggledEvent::Stop(NoPayload)
                    },
                ),
            ),
            repaint: true,
            ..v2
        }
    } else {
        v2
    };
    match v3.slot.inbox {
        Some(r) => CheckboxView {
            rect: r,
            repaint: true,
            slot: SlotView { inbox: None, ..v3.slot },
            ..v3
        },
        None => v3,
    }
}

/// Folding a burst of window events commutes with splitting it: handling
/// `a + b` in one tick reaches the same handler invocations, in the same
/// order, as handling `a` in one tick and `b` in the next. Together with the
/// cursor bookkeeping of `cb_update` this is the no-loss, no-redelivery
/// guarantee across a tick boundary.
pub proof fn lemma_cb_run_concat(v: CheckboxView, a: Seq<WindowEvent>, b: Seq<WindowEvent>)
    ensures
        cb_run(v, a + b) == cb_run(cb_run(v, a), b),
    decreases a.len(),
{
    if a.len() == 0 {
        assert(a + b =~= b);
    } else {
        assert((a + b)[0] == a[0]);
        assert((a + b).drop_first() =~= a.drop_first() + b);
        lemma_cb_run_concat(cb_step(v, a[0]), a.drop_first(), b);
    }
}

/// Appending one event to a burst appends one handler invocation.
pub proof fn lemma_cb_run_push(v: CheckboxView, a: Seq<WindowEvent>, ev: WindowEvent)
    ensures
        cb_run(v, a.push(ev)) == cb_step(cb_run(v, a), ev),
{
    let s = cb_run(v, a);
    let one = seq![ev];
    assert(a.push(ev) =~= a + one);
    lemma_cb_run_concat(v, a, one);
    assert(one.drop_first() =~= Seq::<WindowEvent>::empty());
    assert(cb_run(s, one) == cb_run(cb_step(s, ev), one.drop_first()));
    assert(cb_run(cb_step(s, ev), one.drop_first()) == cb_step(s, ev));
}

/// A tick with nothing pending on any bound source and nothing in the layout
/// inbox changes nothing: no event is ever delivered twice.
pub proof fn lemma_update_idle(v: CheckboxView, win: Seq<WindowEvent>)
    requires
        v.ck_cursor == v.checked_changes.len(),
        v.dis_cursor == v.disabled_changes.len(),
        v.win_cursor == win.len(),
        v.slot.inbox is None,
    ensures
        cb_update(v, win) == v,
{
    assert(pending(v.checked_changes, v.ck_cursor) =~= Seq::<Change>::empty());
    assert(pending(v.disabled_changes, v.dis_cursor) =~= Seq::<Change>::empty());
    assert(pending(win, v.win_cursor) =~= Seq::<WindowEvent>::empty());
    assert(cb_update(v, win) == v);
}

/// Checkbox widget; useful for boolean input.
///
/// The size a theme's painter would give the checkbox is taken as a plain
/// `Size` value from the caller; painting itself is an external collaborator
/// consuming `derive_state`.
pub struct Checkbox {
    /// The widget's outbound event queue.
    pub event_queue: EventQueue<CheckboxEvent>,
    /// Whether the checkbox is checked, with change broadcast.
    pub checked: ObservableCell<bool>,
    /// Whether the checkbox ignores pointer input, with change broadcast.
    pub disabled: ObservableCell<bool>,
    rect: Rect,
    command_group: CommandGroup,
    layout: WidgetLayoutEvents,
    visibility: Visibility,
    interaction: InteractionState,
    drop_event: EventQueue<DropEvent>,
    pipe: Pipeline,
    ck_listener: Listener,
    dis_listener: Listener,
    win_listener: Listener,
}

impl View for Checkbox {
    type V = CheckboxView;

    closed spec fn view(&self) -> CheckboxView {
        CheckboxView {
            checked: self.checked@.value,
            checked_changes: self.checked@.changes,
            disabled: self.disabled@.value,
            disabled_changes: self.disabled@.changes,
            interaction: self.interaction,
            rect: self.rect,
            out: self.event_queue@,
            repaint: self.command_group.repaint_needed,
            slot: self.layout@,
            drops: self.drop_event@,
            visibility: self.visibility,
            ck_cursor: self.ck_listener.pos_spec(),
            dis_cursor: self.dis_listener.pos_spec(),
            win_cursor: self.win_listener.pos_spec(),
        }
    }
}

impl Checkbox {
    /// The widget's internal invariant: the dispatch table is the canonical
    /// checkbox pipeline and all geometry is within coordinate range.
    pub closed spec fn wf(&self) -> bool {
        &&& checkbox_pipe_wf(self.pipe)
        &&& self.rect.in_bounds()
        &&& self.layout.wf()
    }

    /// Creates a new checkbox with a given checked state, disabled state and
    /// position. `size_hint` is the extent the theme collaborator reports for
    /// this state.
    pub fn new(
        checked: bool,
        disabled: bool,
        position: Point,
        size_hint: Size,
        window_queue: &EventQueue<WindowEvent>,
    ) -> (cb: Checkbox)
        requires
            position.in_bounds(),
            size_hint.in_bounds(),
        ensures
            cb.wf(),
            cb@ == (CheckboxView {
                checked,
                checked_changes: Seq::<Change>::empty(),
                disabled,
                disabled_changes: Seq::<Change>::empty(),
                interaction: InteractionState { pressed: false, hovered: false, focused: false },
                rect: Rect { x: position.x, y: position.y, w: size_hint.w, h: size_hint.h },
                out: Seq::<CheckboxEvent>::empty(),
                repaint: false,
                slot: SlotView { id: None, inbox: None, outbox: None },
                drops: Seq::<DropEvent>::empty(),
                visibility: Visibility::Visible,
                ck_cursor: 0,
                dis_cursor: 0,
                win_cursor: window_queue@.len() as int,
            }),
    {
        let rect = Rect::new(position, size_hint);
        let checked_cell = ObservableCell::new(checked);
        let disabled_cell = ObservableCell::new(disabled);

        let mut pipe = Pipeline::new();
        pipe.add_change(SRC_CHECKED_CHANGE, H_REPAINT);
        pipe.add_change(SRC_DISABLED_CHANGE, H_REPAINT);
        let mut table: Vec<KeyedHandler> = Vec::new();
        table.push(KeyedHandler { topic: KEY_MOUSE_PRESS, handler: H_MOUSE_PRESS });
        table.push(KeyedHandler { topic: KEY_MOUSE_RELEASE, handler: H_MOUSE_RELEASE });
        table.push(KeyedHandler { topic: KEY_MOUSE_MOVE, handler: H_MOUSE_MOVE });
        table.push(KeyedHandler { topic: KEY_CLEAR_FOCUS, handler: H_CLEAR_FOCUS });
        proof {
            assert(table@ =~= checkbox_topics());
        }
        pipe.add_keyed(SRC_WINDOW, table);

        let ck_listener = checked_cell.on_change().listen();
        let dis_listener = disabled_cell.on_change().listen();
        let win_listener = window_queue.listen();

        Checkbox {
            event_queue: EventQueue::new(),
            checked: checked_cell,
            disabled: disabled_cell,
            rect,
            command_group: CommandGroup::new(),
            layout: WidgetLayoutEvents::new(),
            visibility: Visibility::Visible,
            interaction: InteractionState::empty(),
            drop_event: EventQueue::new(),
            pipe,
            ck_listener,
            dis_listener,
            win_listener,
        }
    }

    /// Runs a change-binding handler once for a non-empty drain.
    fn dispatch_change(&mut self, handler: u64)
        ensures
            final(self)@ == if handler == H_REPAINT {
                CheckboxView { repaint: true, ..old(self)@ }
            } else {
                old(self)@
            },
            final(self).pipe == old(self).pipe,
            final(self).rect == old(self).rect,
            final(self).layout == old(self).layout,
    {
        if handler == H_REPAINT {
            self.command_group.repaint();
        }
    }

    /// Runs the keyed handler the window binding selected for `ev`.
    fn dispatch_window(&mut self, handler: u64, ev: WindowEvent)
        requires
            handler == window_handler_of(ev),
            old(self)@.rect.in_bounds(),
        ensures
            final(self)@ == cb_step(old(self)@, ev),
            final(self).pipe == old(self).pipe,
            final(self).rect.in_bounds(),
            final(self).layout == old(self).layout,
    {
        if handler == H_MOUSE_PRESS {
            match ev {
                WindowEvent::MousePress(pos, btn) => {
                    if !*self.disabled.get() && btn == MouseButton::Left && self.rect.contains(
                        pos,
                    ) {
                        self.interaction.pressed = true;
                        self.event_queue.emit(CheckboxEvent::Press(ToggledEvent::new(true, pos)));
                        self.command_group.repaint();
                    }
                },
                _ => {},
            }
        } else if handler == H_MOUSE_RELEASE {
            match ev {
                WindowEvent::MouseRelease(pos, btn) => {
                    if !*self.disabled.get() && btn == MouseButton::Left
                        && self.interaction.pressed {
                        self.interaction.pressed = false;
                        self.interaction.focused = true;
                        self.event_queue.emit(CheckboxEvent::Press(ToggledEvent::new(false, pos)));
                        let now_checked = !*self.checked.get();
                        self.checked.set(now_checked);
                        self.event_queue.emit(
                            CheckboxEvent::Check(ToggledEvent::new(now_checked, pos)),
                        );
                        self.command_group.repaint();
                    }
                },
                _ => {},
            }
        } else if handler == H_MOUSE_MOVE {
            match ev {
                WindowEvent::MouseMove(pos) => {
                    if self.rect.contains(pos) {
                        if !self.interaction.hovered {
                            self.interaction.hovered = true;
                            self.event_queue.emit(
                                CheckboxEvent::MouseHover(ToggledEvent::new(true, pos)),
                            );
                            self.command_group.repaint();
                        }
                    } else {
                        if self.interaction.hovered {
                            self.interaction.hovered = false;
                            self.event_queue.emit(
                                CheckboxEvent::MouseHover(ToggledEvent::new(false, pos)),
                            );
                            self.command_group.repaint();
                        }
                    }
                },
                _ => {},
            }
        } else {
            match ev {
                WindowEvent::ClearFocus => {
                    self.interaction.focused = false;
                },
                _ => {},
            }
        }
    }

    /// One update tick: drains the bound event sources in registration order
    /// and dispatches each pending event to its handler, emits a focus-change
    /// event when the pass flipped focus, then adopts a parent-assigned
    /// rectangle from the layout inbox.
    #[verifier::rlimit(100)]
    pub fn update(&mut self, window_queue: &EventQueue<WindowEvent>)
        requires
            old(self).wf(),
        ensures
            final(self).wf(),
            final(self)@ == cb_update(old(self)@, window_queue@),
    {
        let ghost v0 = self@;
        let was_focused = self.interaction.focused;

        // Binding 0: the checked cell's change queue (unconditional handler).
        let h0 = self.pipe.handler_for(0, 0).unwrap();
        let ck_evs = self.checked.on_change().drain(&mut self.ck_listener);
        if ck_evs.len() > 0 {
            self.dispatch_change(h0);
        }

        // Binding 1: the disabled cell's change queue (unconditional handler).
        let h1 = self.pipe.handler_for(1, 0).unwrap();
        let dis_evs = self.disabled.on_change().drain(&mut self.dis_listener);
        if dis_evs.len() > 0 {
            self.dispatch_change(h1);
        }

        // Binding 2: the window queue, dispatched by topic key.
        let wevs = window_queue.drain(&mut self.win_listener);
        let ghost s1 = self@;
        proof {
            let pend_ck = pending(v0.checked_changes, v0.ck_cursor).len() > 0;
            let pend_dis = pending(v0.disabled_changes, v0.dis_cursor).len() > 0;
            assert(s1 == CheckboxView {
                repaint: v0.repaint || pend_ck || pend_dis,
                ck_cursor: v0.checked_changes.len() as int,
                dis_cursor: v0.disabled_changes.len() as int,
                win_cursor: window_queue@.len() as int,
                ..v0
            });
        }
        let mut i: usize = 0;
        while i < wevs.len()
            invariant
                i <= wevs@.len(),
                self@ == cb_run(s1, wevs@.subrange(0, i as int)),
                self@.rect.in_bounds(),
                checkbox_pipe_wf(self.pipe),
                self.layout.wf(),
                self.layout == old(self).layout,
            decreases wevs@.len() - i,
        {
            let ev = wevs[i];
            let key = ev.get_key();
            let h = self.pipe.handler_for(2, key);
            proof {
                lemma_topic_lookup(ev);
            }
            self.dispatch_window(h.unwrap(), ev);
            proof {
                assert(wevs@.subrange(0, i + 1 as int) =~= wevs@.subrange(0, i as int).push(
                    wevs@[i as int],
                ));
                lemma_cb_run_push(s1, wevs@.subrange(0, i as int), wevs@[i as int]);
            }
            i = i + 1;
        }
        proof {
            assert(wevs@.subrange(0, wevs@.len() as int) =~= wevs@);
            assert(self@ == cb_run(s1, pending(window_queue@, v0.win_cursor)));
        }
        let ghost v2 = self@;

        // Focus change observed over the whole pass.
        if was_focused != self.interaction.focused {
            self.command_group.repaint();
            self.event_queue.emit(
                CheckboxEvent::Focus(ToggledEvent::new(!was_focused, NoPayload)),
            );
        }
        proof {
            assert(self@ == if v2.interaction.focused != v0.interaction.focused {
                CheckboxView {
                    out: v2.out.push(
                        CheckboxEvent::Focus(
                            if v2.interaction.focused {
                                ToggledEvent::Start(NoPayload)
                            } else {
                                ToggledEvent::Stop(NoPayload)
                            },
                        ),
                    ),
                    repaint: true,
                    ..v2
                }
            } else {
                v2
            });
        }
        let ghost v3 = self@;

        // Adopt a parent-assigned rectangle, if one arrived.
        let assigned = self.layout.receive();
        match assigned {
            Some(r) => {
                self.rect = r;
                self.command_group.repaint();
            },
            None => {},
        }
        proof {
            assert(self@ == match v3.slot.inbox {
                Some(r) => CheckboxView {
                    rect: r,
                    repaint: true,
                    slot: SlotView { inbox: None, ..v3.slot },
                    ..v3
                },
                None => v3,
            });
            assert(self@ == cb_update(v0, window_queue@));
        }
    }

    /// The snapshot handed to the painter collaborator.
    pub fn derive_state(&self) -> (s: CheckboxState)
        ensures
            s.rect == self@.rect,
            s.checked == self@.checked,
            s.state == if self@.disabled {
                ControlState::Disabled
            } else {
                ControlState::Normal(self@.interaction)
            },
    {
        CheckboxState {
            rect: self.rect,
            checked: *self.checked.get(),
            state: if *self.disabled.get() {
                ControlState::Disabled
            } else {
                ControlState::Normal(self.interaction)
            },
        }
    }

    /// Whether the widget must re-issue its draw commands.
    pub fn needs_repaint(&self) -> (b: bool)
        ensures
            b == self@.repaint,
    {
        self.command_group.repaint_needed
    }

    /// One draw pass: hands the painter collaborator the state snapshot to
    /// render and marks the pending command batch as issued.
    pub fn draw(&mut self) -> (s: CheckboxState)
        ensures
            final(self)@ == (CheckboxView { repaint: false, ..old(self)@ }),
            final(self).wf() == old(self).wf(),
            s.rect == old(self)@.rect,
            s.checked == old(self)@.checked,
            s.state == if old(self)@.disabled {
                ControlState::Disabled
            } else {
                ControlState::Normal(old(self)@.interaction)
            },
    {
        let s = self.derive_state();
        self.command_group.repaint_needed = false;
        s
    }

    /// Moves the widget, reporting the new rectangle to a managing parent.
    pub fn set_position(&mut self, position: Point)
        requires
            old(self).wf(),
            position.in_bounds(),
        ensures
            final(self).wf(),
            final(self)@ == (CheckboxView {
                rect: Rect { x: position.x, y: position.y, ..old(self)@.rect },
                repaint: true,
                slot: SlotView {
                    outbox: if old(self)@.slot.id is Some {
                        Some(Rect { x: position.x, y: position.y, ..old(self)@.rect })
                    } else {
                        old(self)@.slot.outbox
                    },
                    ..old(self)@.slot
                },
                ..old(self)@
            }),
    {
        self.rect.x = position.x;
        self.rect.y = position.y;
        self.command_group.repaint();
        self.layout.notify(self.rect);
    }

    /// The widget's position.
    pub fn position(&self) -> (p: Point)
        ensures
            p == self@.rect.spec_origin(),
    {
        self.rect.origin()
    }

    /// Resizes the widget, reporting the new rectangle to a managing parent.
    pub fn set_size(&mut self, size: Size)
        requires
            old(self).wf(),
            size.in_bounds(),
        ensures
            final(self).wf(),
            final(self)@ == (CheckboxView {
                rect: Rect { w: size.w, h: size.h, ..old(self)@.rect },
                repaint: true,
                slot: SlotView {
                    outbox: if old(self)@.slot.id is Some {
                        Some(Rect { w: size.w, h: size.h, ..old(self)@.rect })
                    } else {
                        old(self)@.slot.outbox
                    },
                    ..old(self)@.slot
                },
                ..old(self)@
            }),
    {
        self.rect.w = size.w;
        self.rect.h = size.h;
        self.command_group.repaint();
        self.layout.notify(self.rect);
    }

    /// The widget's extent.
    pub fn size(&self) -> (s: Size)
        ensures
            s == self@.rect.spec_size(),
    {
        self.rect.size()
    }

    /// Adopts the size the theme collaborator reports for the current state.
    pub fn resize_from_theme(&mut self, size_hint: Size)
        requires
            old(self).wf(),
            size_hint.in_bounds(),
        ensures
            final(self).wf(),
            final(self)@.rect == (Rect { w: size_hint.w, h: size_hint.h, ..old(self)@.rect }),
    {
        self.set_size(size_hint);
    }

    pub fn set_visibility(&mut self, visibility: Visibility)
        ensures
            final(self)@ == (CheckboxView { visibility, ..old(self)@ }),
            final(self).wf() == old(self).wf(),
    {
        self.visibility = visibility;
    }

    pub fn visibility(&self) -> (v: Visibility)
        ensures
            v == self@.visibility,
    {
        self.visibility
    }

    /// Flags the widget for repainting.
    pub fn repaint(&mut self)
        ensures
            final(self)@ == (CheckboxView { repaint: true, ..old(self)@ }),
            final(self).wf() == old(self).wf(),
    {
        self.command_group.repaint();
    }

    /// Emits the drop notification; a widget about to be torn down calls this
    /// before teardown so listening parents can deregister on their next tick.
    pub fn notify_drop(&mut self)
        ensures
            final(self)@ == (CheckboxView { drops: old(self)@.drops.push(DropEvent), ..old(self)@ }),
            final(self).wf() == old(self).wf(),
    {
        self.drop_event.emit(DropEvent);
    }
}

impl LayableWidget for Checkbox {
    open spec fn wf(&self) -> bool {
        Checkbox::wf(self)
    }

    open spec fn rect_of(&self) -> Rect {
        self@.rect
    }

    open spec fn slot_of(&self) -> SlotView {
        self@.slot
    }

    open spec fn drops_of(&self) -> Seq<DropEvent> {
        self@.drops
    }

    open spec fn same_core(&self, other: &Self) -> bool {
        &&& self@.checked == other@.checked
        &&& self@.checked_changes == other@.checked_changes
        &&& self@.disabled == other@.disabled
        &&& self@.disabled_changes == other@.disabled_changes
        &&& self@.interaction == other@.interaction
        &&& self@.out == other@.out
        &&& self@.drops == other@.drops
        &&& self@.visibility == other@.visibility
        &&& self@.ck_cursor == other@.ck_cursor
        &&& self@.dis_cursor == other@.dis_cursor
        &&& self@.win_cursor == other@.win_cursor
    }

    proof fn lemma_same_core_refl(&self) {
    }

    proof fn lemma_same_core_trans(a: Self, b: Self, c: Self) {
    }

    proof fn lemma_wf_rect(&self) {
    }

    proof fn lemma_wf_slot(&self) {
    }

    fn bounds(&self) -> (r: Rect) {
        self.rect
    }

    fn layout_id(&self) -> (r: Option<u64>) {
        self.layout.id()
    }

    fn listen_to_layout(&mut self, binding: Option<u64>) {
        self.layout.update(binding);
    }

    fn set_ctxt_rect(&mut self, r: Rect) {
        self.rect = r;
        self.command_group.repaint();
        self.layout.notify(r);
    }

    fn take_report(&mut self) -> (r: Option<Rect>) {
        self.layout.take_report()
    }

    fn put_assignment(&mut self, r: Rect) {
        self.layout.give(r);
    }

    fn drop_event(&self) -> (q: &EventQueue<DropEvent>) {
        &self.drop_event
    }
}

} // verus!
