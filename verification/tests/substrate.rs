use reui_core::event::BidirQueue;
use reui_core::event::EventQueue;
use reui_core::geom::Align;
use reui_core::geom::Point;
use reui_core::geom::Rect;
use reui_core::observed::ObservableCell;
use reui_core::pipe::KeyedHandler;
use reui_core::pipe::Pipeline;

#[test]
fn listener_independence() {
    // Two listeners created before a burst drain identical sequences in
    // identical order, regardless of interleaved drains.
    let mut q: EventQueue<u64> = EventQueue::new();
    let mut a = q.listen();
    let mut b = q.listen();
    q.emit(1);
    q.emit(2);
    let first_a = q.drain(&mut a);
    assert_eq!(first_a, vec![1, 2]);
    q.emit(3);
    let first_b = q.drain(&mut b);
    let second_a = q.drain(&mut a);
    let mut all_a = first_a.clone();
    all_a.extend(second_a.iter().copied());
    assert_eq!(first_b, vec![1, 2, 3]);
    assert_eq!(all_a, vec![1, 2, 3]);
}

#[test]
fn listener_starts_at_tail() {
    // A listener created after events were emitted never sees them.
    let mut q: EventQueue<u64> = EventQueue::new();
    q.emit(7);
    let mut late = q.listen();
    assert_eq!(q.drain(&mut late), Vec::<u64>::new());
    q.emit(8);
    assert_eq!(q.drain(&mut late), vec![8]);
}

#[test]
fn drain_never_redelivers() {
    let mut q: EventQueue<u64> = EventQueue::new();
    let mut l = q.listen();
    q.emit(4);
    assert_eq!(q.drain(&mut l), vec![4]);
    assert_eq!(q.drain(&mut l), Vec::<u64>::new());
}

#[test]
fn peek_does_not_consume() {
    let mut q: EventQueue<u64> = EventQueue::new();
    let l = q.listen();
    q.emit(1);
    q.emit(2);
    assert_eq!(q.peek_count(&l), 2);
    assert_eq!(q.peek_count(&l), 2);
}

#[test]
fn observable_emits_exactly_one_change_per_set() {
    let mut cell = ObservableCell::new(5u64);
    let mut l = cell.on_change().listen();
    cell.set(6);
    assert_eq!(*cell.get(), 6);
    assert_eq!(cell.on_change().drain(&mut l).len(), 1);
    cell.set(6);
    cell.set(7);
    assert_eq!(cell.on_change().drain(&mut l).len(), 2);
}

#[test]
fn bidir_queue_never_loops_back() {
    let mut q: BidirQueue<u64, u64> = BidirQueue::new();
    q.emit_primary(10);
    // The primary's own message is not visible at the primary end.
    assert_eq!(q.retrieve_newest_primary(), None);
    assert_eq!(q.retrieve_newest_secondary(), Some(10));
    q.emit_secondary(20);
    assert_eq!(q.retrieve_newest_secondary(), None);
    assert_eq!(q.retrieve_newest_primary(), Some(20));
}

#[test]
fn bidir_queue_newest_overwrites() {
    let mut q: BidirQueue<u64, u64> = BidirQueue::new();
    q.emit_primary(1);
    q.emit_primary(2);
    assert_eq!(q.retrieve_newest_secondary(), Some(2));
    assert_eq!(q.retrieve_newest_secondary(), None);
}

#[test]
fn pipeline_selects_exact_topic() {
    let mut p = Pipeline::new();
    p.add_change(1, 100);
    let table = vec![
        KeyedHandler { topic: 7, handler: 70 },
        KeyedHandler { topic: 8, handler: 80 },
        KeyedHandler { topic: 7, handler: 71 },
    ];
    p.add_keyed(2, table);
    assert_eq!(p.len(), 2);
    // A change binding runs its handler for any topic.
    assert_eq!(p.handler_for(0, 99), Some(100));
    // A keyed binding selects the first registration under the exact topic.
    assert_eq!(p.handler_for(1, 7), Some(70));
    assert_eq!(p.handler_for(1, 8), Some(80));
    // An unregistered topic selects nothing: the event is a defined no-op.
    assert_eq!(p.handler_for(1, 9), None);
}

#[test]
fn rect_containment_is_half_open() {
    let r = Rect { x: 10, y: 10, w: 20, h: 20 };
    assert!(r.contains(Point { x: 10, y: 10 }));
    assert!(r.contains(Point { x: 29, y: 29 }));
    assert!(!r.contains(Point { x: 30, y: 10 }));
    assert!(!r.contains(Point { x: 9, y: 10 }));
}

#[test]
fn align_default_is_begin() {
    assert_eq!(Align::default(), Align::Begin);
}
