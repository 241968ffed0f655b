use reui_core::base::LayableWidget;
use reui_core::base::MouseButton;
use reui_core::base::WindowEvent;
use reui_core::checkbox::Checkbox;
use reui_core::checkbox::CheckboxEvent;
use reui_core::checkbox::ControlState;
use reui_core::checkbox::ToggledEvent;
use reui_core::event::EventQueue;
use reui_core::geom::Align;
use reui_core::geom::Point;
use reui_core::geom::Rect;
use reui_core::geom::Size;
use reui_core::vstack::VStack;
use reui_core::vstack::VStackItem;

fn new_checkbox(win: &EventQueue<WindowEvent>) -> Checkbox {
    Checkbox::new(
        false,
        false,
        Point { x: 10, y: 10 },
        Size { w: 20, h: 20 },
        win,
    )
}

#[test]
fn checkbox_press_release_scenario() {
    // A checkbox, unchecked and not disabled, at (10,10): press inside the
    // bounds then release inside the bounds.
    let mut win: EventQueue<WindowEvent> = EventQueue::new();
    let mut cb = new_checkbox(&win);
    let mut out = cb.event_queue.listen();
    let mut changes = cb.checked.on_change().listen();

    win.emit(WindowEvent::MousePress(Point { x: 15, y: 15 }, MouseButton::Left));
    win.emit(WindowEvent::MouseRelease(Point { x: 15, y: 15 }, MouseButton::Left));
    cb.update(&win);

    let events = cb.event_queue.drain(&mut out);
    assert_eq!(events.len(), 4);
    assert_eq!(events[0], CheckboxEvent::Press(ToggledEvent::Start(Point { x: 15, y: 15 })));
    assert_eq!(events[1], CheckboxEvent::Press(ToggledEvent::Stop(Point { x: 15, y: 15 })));
    assert_eq!(events[2], CheckboxEvent::Check(ToggledEvent::Start(Point { x: 15, y: 15 })));
    assert!(matches!(events[3], CheckboxEvent::Focus(ToggledEvent::Start(_))));

    // The checked observable flipped exactly once.
    assert_eq!(*cb.checked.get(), true);
    assert_eq!(cb.checked.on_change().drain(&mut changes).len(), 1);
}

#[test]
fn checkbox_toggle_off_emits_check_stop() {
    let mut win: EventQueue<WindowEvent> = EventQueue::new();
    let mut cb = Checkbox::new(
        true,
        false,
        Point { x: 10, y: 10 },
        Size { w: 20, h: 20 },
        &win,
    );
    let mut out = cb.event_queue.listen();
    win.emit(WindowEvent::MousePress(Point { x: 12, y: 12 }, MouseButton::Left));
    win.emit(WindowEvent::MouseRelease(Point { x: 12, y: 12 }, MouseButton::Left));
    cb.update(&win);
    let events = cb.event_queue.drain(&mut out);
    assert_eq!(events[2], CheckboxEvent::Check(ToggledEvent::Stop(Point { x: 12, y: 12 })));
    assert_eq!(*cb.checked.get(), false);
}

#[test]
fn checkbox_ignores_press_outside_and_when_disabled() {
    let mut win: EventQueue<WindowEvent> = EventQueue::new();
    let mut cb = new_checkbox(&win);
    let mut out = cb.event_queue.listen();
    win.emit(WindowEvent::MousePress(Point { x: 5, y: 5 }, MouseButton::Left));
    win.emit(WindowEvent::MousePress(Point { x: 15, y: 15 }, MouseButton::Right));
    cb.update(&win);
    assert_eq!(cb.event_queue.drain(&mut out).len(), 0);
    assert_eq!(*cb.checked.get(), false);

    cb.disabled.set(true);
    win.emit(WindowEvent::MousePress(Point { x: 15, y: 15 }, MouseButton::Left));
    win.emit(WindowEvent::MouseRelease(Point { x: 15, y: 15 }, MouseButton::Left));
    cb.update(&win);
    assert_eq!(cb.event_queue.drain(&mut out).len(), 0);
    assert_eq!(*cb.checked.get(), false);
}

#[test]
fn checkbox_hover_events() {
    let mut win: EventQueue<WindowEvent> = EventQueue::new();
    let mut cb = new_checkbox(&win);
    let mut out = cb.event_queue.listen();
    win.emit(WindowEvent::MouseMove(Point { x: 15, y: 15 }));
    win.emit(WindowEvent::MouseMove(Point { x: 16, y: 16 }));
    win.emit(WindowEvent::MouseMove(Point { x: 5, y: 5 }));
    cb.update(&win);
    let events = cb.event_queue.drain(&mut out);
    assert_eq!(events.len(), 2);
    assert_eq!(events[0], CheckboxEvent::MouseHover(ToggledEvent::Start(Point { x: 15, y: 15 })));
    assert_eq!(events[1], CheckboxEvent::MouseHover(ToggledEvent::Stop(Point { x: 5, y: 5 })));
}

#[test]
fn no_event_loss_across_tick_boundary() {
    // Events delivered across two ticks reach the handlers exactly once
    // each, in emission order, exactly as in a single tick.
    let mut win1: EventQueue<WindowEvent> = EventQueue::new();
    let mut cb1 = new_checkbox(&win1);
    let mut out1 = cb1.event_queue.listen();
    win1.emit(WindowEvent::MousePress(Point { x: 15, y: 15 }, MouseButton::Left));
    cb1.update(&win1);
    win1.emit(WindowEvent::MouseRelease(Point { x: 15, y: 15 }, MouseButton::Left));
    cb1.update(&win1);
    let split = cb1.event_queue.drain(&mut out1);

    let mut win2: EventQueue<WindowEvent> = EventQueue::new();
    let mut cb2 = new_checkbox(&win2);
    let mut out2 = cb2.event_queue.listen();
    win2.emit(WindowEvent::MousePress(Point { x: 15, y: 15 }, MouseButton::Left));
    win2.emit(WindowEvent::MouseRelease(Point { x: 15, y: 15 }, MouseButton::Left));
    cb2.update(&win2);
    let burst = cb2.event_queue.drain(&mut out2);

    assert_eq!(split, burst);
    assert_eq!(*cb1.checked.get(), *cb2.checked.get());

    // A tick with nothing pending delivers nothing again.
    cb1.update(&win1);
    assert_eq!(cb1.event_queue.drain(&mut out1).len(), 0);
}

#[test]
fn checkbox_clear_focus_topic() {
    let mut win: EventQueue<WindowEvent> = EventQueue::new();
    let mut cb = new_checkbox(&win);
    let mut out = cb.event_queue.listen();
    win.emit(WindowEvent::MousePress(Point { x: 15, y: 15 }, MouseButton::Left));
    win.emit(WindowEvent::MouseRelease(Point { x: 15, y: 15 }, MouseButton::Left));
    cb.update(&win);
    let _ = cb.event_queue.drain(&mut out);
    win.emit(WindowEvent::ClearFocus);
    cb.update(&win);
    let events = cb.event_queue.drain(&mut out);
    assert_eq!(events.len(), 1);
    assert!(matches!(events[0], CheckboxEvent::Focus(ToggledEvent::Stop(_))));
}

#[test]
fn checkbox_derive_state() {
    let win: EventQueue<WindowEvent> = EventQueue::new();
    let mut cb = new_checkbox(&win);
    let s = cb.derive_state();
    assert_eq!(s.rect, Rect { x: 10, y: 10, w: 20, h: 20 });
    assert_eq!(s.checked, false);
    assert!(matches!(s.state, ControlState::Normal(_)));
    cb.disabled.set(true);
    assert!(matches!(cb.derive_state().state, ControlState::Disabled));
}

#[test]
fn vstack_item_builders() {
    let item = VStackItem::default().top_margin(3).bottom_margin(4).align(Align::End);
    assert_eq!(item.top_margin, 3);
    assert_eq!(item.bottom_margin, 4);
    assert_eq!(item.alignment, Align::End);
}

#[test]
fn vstack_alignment_correctness() {
    // Container of width 20 (the widest child); children of widths 10 and 20.
    let win: EventQueue<WindowEvent> = EventQueue::new();
    let mut stack = VStack::from_theme().construct();
    let mut a = Checkbox::new(false, false, Point { x: 0, y: 0 }, Size { w: 10, h: 5 }, &win);
    let mut b = Checkbox::new(false, false, Point { x: 0, y: 0 }, Size { w: 20, h: 7 }, &win);
    let mut c = Checkbox::new(false, false, Point { x: 0, y: 0 }, Size { w: 10, h: 3 }, &win);
    let mut d = Checkbox::new(false, false, Point { x: 0, y: 0 }, Size { w: 10, h: 2 }, &win);
    stack.push(Some(VStackItem::default().align(Align::Middle)), &mut a);
    stack.push(Some(VStackItem::default().align(Align::End)), &mut b);
    stack.push(Some(VStackItem::default().align(Align::Begin)), &mut c);
    stack.push(Some(VStackItem::default().align(Align::Stretch)), &mut d);
    stack.update();
    stack.sync_child(&mut a);
    stack.sync_child(&mut b);
    stack.sync_child(&mut c);
    stack.sync_child(&mut d);
    a.update(&win);
    b.update(&win);
    c.update(&win);
    d.update(&win);
    // The container's size is derived: max width 20, heights 5+7+3+2.
    assert_eq!(stack.bounds(), Rect { x: 0, y: 0, w: 20, h: 17 });
    // Middle: offset (20 - 10) / 2 = 5.
    assert_eq!(a.bounds(), Rect { x: 5, y: 0, w: 10, h: 5 });
    // End: offset 20 - 20 = 0, stacked below a.
    assert_eq!(b.bounds(), Rect { x: 0, y: 5, w: 20, h: 7 });
    // Begin: offset 0.
    assert_eq!(c.bounds(), Rect { x: 0, y: 12, w: 10, h: 3 });
    // Stretch: width forced to 20 at offset 0.
    assert_eq!(d.bounds(), Rect { x: 0, y: 15, w: 20, h: 2 });
}

#[test]
fn vstack_margins_accumulate() {
    let win: EventQueue<WindowEvent> = EventQueue::new();
    let mut stack = VStack::from_theme().construct();
    let mut a = Checkbox::new(false, false, Point { x: 0, y: 0 }, Size { w: 10, h: 5 }, &win);
    let mut b = Checkbox::new(false, false, Point { x: 0, y: 0 }, Size { w: 10, h: 5 }, &win);
    stack.push(Some(VStackItem::default().top_margin(2).bottom_margin(1)), &mut a);
    stack.push(Some(VStackItem::default().top_margin(3)), &mut b);
    stack.update();
    stack.sync_child(&mut a);
    stack.sync_child(&mut b);
    a.update(&win);
    b.update(&win);
    // Content height: 2 + 5 + 1 + 3 + 5 = 16.
    assert_eq!(stack.bounds().h, 16);
    assert_eq!(a.bounds().y, 2);
    assert_eq!(b.bounds().y, 11);
}

#[test]
fn vstack_layout_idempotence() {
    // With no push, remove or geometry change between two updates, the
    // second update re-emits no rectangle.
    let win: EventQueue<WindowEvent> = EventQueue::new();
    let mut stack = VStack::from_theme().construct();
    let mut a = Checkbox::new(false, false, Point { x: 0, y: 0 }, Size { w: 10, h: 5 }, &win);
    stack.push(None, &mut a);
    stack.update();
    stack.sync_child(&mut a);
    a.update(&win);
    assert!(a.needs_repaint());
    let _ = a.draw();
    assert!(!a.needs_repaint());

    stack.update();
    stack.sync_child(&mut a);
    a.update(&win);
    // No rectangle arrived: nothing was adopted, nothing repaints.
    assert!(!a.needs_repaint());
    assert_eq!(a.bounds(), Rect { x: 0, y: 0, w: 10, h: 5 });
}

#[test]
fn vstack_child_report_marks_dirty() {
    let win: EventQueue<WindowEvent> = EventQueue::new();
    let mut stack = VStack::from_theme().construct();
    let mut a = Checkbox::new(false, false, Point { x: 0, y: 0 }, Size { w: 10, h: 5 }, &win);
    stack.push(None, &mut a);
    stack.update();
    stack.sync_child(&mut a);
    a.update(&win);
    // The child grows; the report travels upward and the stack resizes.
    a.set_size(Size { w: 12, h: 9 });
    stack.sync_child(&mut a);
    stack.update();
    assert_eq!(stack.bounds().w, 12);
    assert_eq!(stack.bounds().h, 9);
}

#[test]
fn vstack_drop_cleanup() {
    let win: EventQueue<WindowEvent> = EventQueue::new();
    let mut stack = VStack::from_theme().construct();
    let mut a = Checkbox::new(false, false, Point { x: 0, y: 0 }, Size { w: 10, h: 5 }, &win);
    let mut b = Checkbox::new(false, false, Point { x: 0, y: 0 }, Size { w: 8, h: 4 }, &win);
    stack.push(None, &mut a);
    stack.push(None, &mut b);
    stack.update();
    stack.sync_child(&mut a);
    stack.sync_child(&mut b);
    a.update(&win);
    b.update(&win);

    // The first child announces its teardown; the next update purges its
    // record without restoring geometry.
    a.notify_drop();
    stack.sync_child(&mut a);
    stack.update();
    assert_eq!(stack.bounds(), Rect { x: 0, y: 0, w: 8, h: 4 });

    // No rectangle is pushed to the dropped child afterward.
    let _ = a.draw();
    stack.sync_child(&mut a);
    a.update(&win);
    assert!(!a.needs_repaint());
}

#[test]
fn vstack_restore_on_remove() {
    let win: EventQueue<WindowEvent> = EventQueue::new();
    let mut stack = VStack::from_theme().construct();
    let mut a = Checkbox::new(false, false, Point { x: 3, y: 4 }, Size { w: 10, h: 5 }, &win);
    let original = a.bounds();
    stack.push(None, &mut a);
    // The container reassigns a different rectangle in the interim.
    stack.update();
    stack.sync_child(&mut a);
    a.update(&win);
    assert_ne!(a.bounds(), original);
    // Removal with restoration resets exactly the rectangle recorded at push.
    stack.remove(&mut a, true);
    assert_eq!(a.bounds(), original);
    assert_eq!(a.layout_id(), None);
}

#[test]
fn vstack_remove_without_restore_keeps_assigned_rect() {
    let win: EventQueue<WindowEvent> = EventQueue::new();
    let mut stack = VStack::from_theme().construct();
    let mut a = Checkbox::new(false, false, Point { x: 3, y: 4 }, Size { w: 10, h: 5 }, &win);
    stack.push(None, &mut a);
    stack.update();
    stack.sync_child(&mut a);
    a.update(&win);
    let assigned = a.bounds();
    stack.remove(&mut a, false);
    assert_eq!(a.bounds(), assigned);
    assert_eq!(a.layout_id(), None);
}

#[test]
fn vstack_default_item_comes_from_stack_data() {
    let win: EventQueue<WindowEvent> = EventQueue::new();
    let mut stack = VStack { top_margin: 2, bottom_margin: 3, alignment: Align::End }.construct();
    let mut a = Checkbox::new(false, false, Point { x: 0, y: 0 }, Size { w: 10, h: 5 }, &win);
    let mut b = Checkbox::new(false, false, Point { x: 0, y: 0 }, Size { w: 20, h: 5 }, &win);
    stack.push(None, &mut a);
    stack.push(None, &mut b);
    stack.update();
    stack.sync_child(&mut a);
    stack.sync_child(&mut b);
    a.update(&win);
    b.update(&win);
    // Heights: 2 + 5 + 3 per child; widths aligned to the right edge.
    assert_eq!(stack.bounds().h, 20);
    assert_eq!(a.bounds(), Rect { x: 10, y: 2, w: 10, h: 5 });
    assert_eq!(b.bounds(), Rect { x: 0, y: 12, w: 20, h: 5 });
}

#[test]
fn nested_stacks_propagate_geometry() {
    let win: EventQueue<WindowEvent> = EventQueue::new();
    let mut outer = VStack::from_theme().construct();
    let mut inner = VStack::from_theme().construct();
    let mut leaf = Checkbox::new(false, false, Point { x: 0, y: 0 }, Size { w: 6, h: 4 }, &win);
    inner.push(None, &mut leaf);
    inner.update();
    inner.sync_child(&mut leaf);
    leaf.update(&win);
    outer.push(None, &mut inner);
    outer.update();
    outer.sync_child(&mut inner);
    inner.update();
    assert_eq!(outer.bounds(), Rect { x: 0, y: 0, w: 6, h: 4 });
    assert_eq!(inner.bounds(), Rect { x: 0, y: 0, w: 6, h: 4 });
}
