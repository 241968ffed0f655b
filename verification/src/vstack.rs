//! Vertical-stack layout container: registers children, listens for their
//! geometry reports and drop notifications, and on each dirty update derives
//! its own size from its children and assigns each child a rectangle
//! according to its margins and alignment policy.

use vstd::prelude::*;

use crate::base::CommandGroup;
use crate::base::LayableWidget;
use crate::base::SlotView;
use crate::base::Visibility;
use crate::base::WidgetLayoutEvents;
use crate::event::BidirQueue;
use crate::event::Change;
use crate::event::DropEvent;
use crate::event::EventQueue;
use crate::event::Listener;
use crate::event::pending;
use crate::geom::clamp_coord;
use crate::geom::clamp_coord_spec;
use crate::geom::clamp_dim;
use crate::geom::clamp_dim_spec;
use crate::geom::dim_ok;
use crate::geom::Align;
use crate::geom::Rect;
use crate::observed::ObservableCell;

verus! {

/// Information about how a stack child should be laid out.
#[derive(Clone, Copy, Debug, PartialEq, Eq, Structural)]
pub struct VStackItem {
    /// The margin between the widget above (or the container top) and the
    /// top of the child.
    pub top_margin: i64,
    /// The margin between the widget below and the bottom of the child.
    pub bottom_margin: i64,
    /// How the child is horizontally aligned within the stack.
    pub alignment: Align,
}

impl VStackItem {
    pub open spec fn wf(self) -> bool {
        dim_ok(self.top_margin) && dim_ok(self.bottom_margin)
    }

    /// Sets the `top_margin` value.
    pub fn top_margin(self, top_margin: i64) -> (r: VStackItem)
        ensures
            r == (VStackItem { top_margin, ..self }),
    {
        VStackItem { top_margin, ..self }
    }

    /// Sets the `bottom_margin` value.
    pub fn bottom_margin(self, bottom_margin: i64) -> (r: VStackItem)
        ensures
            r == (VStackItem { bottom_margin, ..self }),
    {
        VStackItem { bottom_margin, ..self }
    }

    /// Sets the `align` value.
    pub fn align(self, alignment: Align) -> (r: VStackItem)
        ensures
            r == (VStackItem { alignment, ..self }),
    {
        VStackItem { alignment, ..self }
    }
}

impl Default for VStackItem {
    fn default() -> (r: VStackItem)
        ensures
            r == (VStackItem { top_margin: 0, bottom_margin: 0, alignment: Align::Begin }),
    {
        VStackItem { top_margin: 0, bottom_margin: 0, alignment: Align::Begin }
    }
}

/// The stack's own parameters: default margins and alignment given to
/// children pushed without explicit layout information.
#[derive(Clone, Copy, Debug, PartialEq, Eq, Structural)]
pub struct VStack {
    pub top_margin: i64,
    pub bottom_margin: i64,
    pub alignment: Align,
}

impl VStack {
    pub open spec fn wf(self) -> bool {
        dim_ok(self.top_margin) && dim_ok(self.bottom_margin)
    }

    /// The parameters a theme collaborator would suggest: themes do not
    /// influence stack parameters, so these are the defaults.
    pub fn from_theme() -> (r: VStack)
        ensures
            r == (VStack { top_margin: 0, bottom_margin: 0, alignment: Align::Begin }),
    {
        VStack { top_margin: 0, bottom_margin: 0, alignment: Align::Begin }
    }
}

impl Default for VStack {
    fn default() -> (r: VStack)
        ensures
            r == (VStack { top_margin: 0, bottom_margin: 0, alignment: Align::Begin }),
    {
        VStack { top_margin: 0, bottom_margin: 0, alignment: Align::Begin }
    }
}

/// Container-side bookkeeping for one managed child.
struct ChildRecord {
    item: VStackItem,
    link: BidirQueue<Rect, Rect>,
    drop_listener: Listener,
    dropped: bool,
    rect: Rect,
    original_rect: Rect,
    id: u64,
}

/// The observable state of one child record.
pub struct RecordV {
    pub item: VStackItem,
    /// The rectangle pending delivery to the child, if any.
    pub assign: Option<Rect>,
    /// The child's geometry report pending consumption, if any.
    pub report: Option<Rect>,
    /// The cursor of the container's listener on the child's drop queue.
    pub drop_cursor: int,
    /// Whether the child's drop notification has been observed.
    pub dropped: bool,
    /// The last known child rectangle.
    pub rect: Rect,
    /// The child's rectangle at the moment it was pushed.
    pub original_rect: Rect,
    pub id: u64,
}

impl ChildRecord {
    spec fn view(&self) -> RecordV {
        RecordV {
            item: self.item,
            assign: self.link@.to_secondary,
            report: self.link@.to_primary,
            drop_cursor: self.drop_listener.pos_spec(),
            dropped: self.dropped,
            rect: self.rect,
            original_rect: self.original_rect,
            id: self.id,
        }
    }
}

/// A record whose geometry and pending messages are within coordinate range.
pub open spec fn record_wf(r: RecordV) -> bool {
    &&& r.item.wf()
    &&& r.rect.in_bounds()
    &&& r.original_rect.in_bounds()
    &&& (r.assign is Some ==> r.assign->Some_0.in_bounds())
    &&& (r.report is Some ==> r.report->Some_0.in_bounds())
}

/// The full observable state of a stack container.
pub struct VStackView {
    pub data: VStack,
    pub data_changes: Seq<Change>,
    pub records: Seq<RecordV>,
    pub next_id: u64,
    pub dirty: bool,
    pub rect: Rect,
    pub slot: SlotView,
    pub repaint: bool,
    pub visibility: Visibility,
    pub drops: Seq<DropEvent>,
}

/// Maximum width of a prefix of the records' rectangles (zero when empty).
pub open spec fn cw_prefix(rs: Seq<RecordV>, i: int) -> int
    decreases i,
{
    if i <= 0 {
        0
    } else {
        let w = cw_prefix(rs, i - 1);
        if rs[i - 1].rect.w > w {
            rs[i - 1].rect.w as int
        } else {
            w
        }
    }
}

/// Accumulated content height of a prefix: each child contributes its height
/// plus its top and bottom margins; the running sum saturates at the
/// coordinate limit.
pub open spec fn ch_prefix(rs: Seq<RecordV>, i: int) -> int
    decreases i,
{
    if i <= 0 {
        0
    } else {
        clamp_dim_spec(
            ch_prefix(rs, i - 1) + rs[i - 1].item.top_margin + rs[i - 1].rect.h + rs[i
                - 1].item.bottom_margin,
        )
    }
}

/// The horizontal position a child of width `w` gets under alignment `a`
/// within container rectangle `cr`, before range clamping.
pub open spec fn align_x_spec(a: Align, cr: Rect, w: int) -> int {
    match a {
        Align::Begin => cr.x as int,
        Align::Middle => cr.x + (cr.w - w) / 2,
        Align::End => cr.x + cr.w - w,
        Align::Stretch => cr.x as int,
    }
}

/// The running vertical offset before the child at index `i` is placed.
pub open spec fn adv_at(rs: Seq<RecordV>, cr: Rect, i: int) -> int
    decreases i,
{
    if i <= 0 {
        cr.y as int
    } else {
        let y = clamp_coord_spec(adv_at(rs, cr, i - 1) + rs[i - 1].item.top_margin);
        clamp_coord_spec(y + rs[i - 1].rect.h + rs[i - 1].item.bottom_margin)
    }
}

/// The rectangle assigned to the child at index `i` when arranging `rs`
/// within the container rectangle `cr`.
pub open spec fn placed_rect(rs: Seq<RecordV>, cr: Rect, i: int) -> Rect {
    let r = rs[i];
    Rect {
        x: clamp_coord_spec(align_x_spec(r.item.alignment, cr, r.rect.w as int)) as i64,
        y: clamp_coord_spec(adv_at(rs, cr, i) + r.item.top_margin) as i64,
        w: if r.item.alignment is Stretch {
            cr.w
        } else {
            r.rect.w
        },
        h: r.rect.h,
    }
}

/// The records after arranging: each child's last known rectangle becomes the
/// placed rectangle, and the same rectangle is pending delivery to the child.
pub open spec fn arranged_records(rs: Seq<RecordV>, cr: Rect) -> Seq<RecordV> {
    Seq::new(
        rs.len(),
        |i: int|
            RecordV {
                rect: placed_rect(rs, cr, i),
                assign: Some(placed_rect(rs, cr, i)),
                ..rs[i]
            },
    )
}

/// Consuming one record's inbound traffic: a pending report is consumed and,
/// when within coordinate range, adopted as the child's last known rectangle;
/// any inbound event is a dirty trigger.
pub open spec fn step_record(r: RecordV) -> (RecordV, bool) {
    match r.report {
        Some(nr) => (
            RecordV {
                rect: if nr.in_bounds() {
                    nr
                } else {
                    r.rect
                },
                report: None,
                ..r
            },
            true,
        ),
        None => (r, false),
    }
}

/// Walking the first `i` records in registration order: records whose drop
/// notification was observed are purged (a dirty trigger, geometry not
/// restored); the others consume their inbound traffic.
pub open spec fn step_prefix(rs: Seq<RecordV>, i: int) -> (Seq<RecordV>, bool)
    decreases i,
{
    if i <= 0 {
        (Seq::<RecordV>::empty(), false)
    } else {
        let prev = step_prefix(rs, i - 1);
        let r = rs[i - 1];
        if r.dropped {
            (prev.0, true)
        } else {
            let st = step_record(r);
            (prev.0.push(st.0), prev.1 || st.1)
        }
    }
}

/// Adoption of a parent-assigned rectangle from the stack's own inbox.
pub open spec fn vstack_phase_inbox(v: VStackView) -> VStackView {
    match v.slot.inbox {
        Some(r) => VStackView {
            rect: r,
            dirty: true,
            repaint: true,
            slot: SlotView { inbox: None, ..v.slot },
            ..v
        },
        None => v,
    }
}

/// One whole update tick of a stack container: adopt an own assigned
/// rectangle, purge dropped children and consume child reports, and - when
/// anything marked the stack dirty - derive the content size, resize itself,
/// arrange the children in registration order and push each its rectangle,
/// clearing the dirty flag only after all children are processed.
pub open spec fn vstack_update(v: VStackView) -> VStackView {
    let v1 = vstack_phase_inbox(v);
    let pr = step_prefix(v1.records, v1.records.len() as int);
    let recs2 = pr.0;
    let dirty2 = v1.dirty || pr.1;
    if dirty2 {
        let cw = cw_prefix(recs2, recs2.len() as int);
        let ch = ch_prefix(recs2, recs2.len() as int);
        let cr = Rect { x: v1.rect.x, y: v1.rect.y, w: cw as i64, h: ch as i64 };
        VStackView {
            records: arranged_records(recs2, cr),
            rect: cr,
            slot: SlotView {
                outbox: if v1.slot.id is Some {
                    Some(cr)
                } else {
                    v1.slot.outbox
                },
                ..v1.slot
            },
            dirty: false,
            repaint: true,
            ..v1
        }
    } else {
        VStackView { records: recs2, ..v1 }
    }
}

/// Abstract layout widget which arranges children in a vertical list,
/// possibly with top and bottom margins and horizontal alignment.
pub struct VStackWidget {
    data: ObservableCell<VStack>,
    rects: Vec<ChildRecord>,
    next_rect_id: u64,
    dirty: bool,
    rect: Rect,
    layout: WidgetLayoutEvents,
    command_group: CommandGroup,
    visibility: Visibility,
    drop_event: EventQueue<DropEvent>,
}

impl View for VStackWidget {
    type V = VStackView;

    closed spec fn view(&self) -> VStackView {
        VStackView {
            data: self.data@.value,
            data_changes: self.data@.changes,
            records: self.rects@.map_values(|r: ChildRecord| r.view()),
            next_id: self.next_rect_id,
            dirty: self.dirty,
            rect: self.rect,
            slot: self.layout@,
            repaint: self.command_group.repaint_needed,
            visibility: self.visibility,
            drops: self.drop_event@,
        }
    }
}

impl VStack {
    /// Builds the stack widget holding these parameters as its observed data.
    pub fn construct(self) -> (w: VStackWidget)
        requires
            self.wf(),
        ensures
            w.wf(),
            w@ == (VStackView {
                data: self,
                data_changes: Seq::<Change>::empty(),
                records: Seq::<RecordV>::empty(),
                next_id: 0,
                dirty: true,
                rect: Rect { x: 0, y: 0, w: 0, h: 0 },
                slot: SlotView { id: None, inbox: None, outbox: None },
                repaint: false,
                visibility: Visibility::Visible,
                drops: Seq::<DropEvent>::empty(),
            }),
    {
        let w = VStackWidget {
            data: ObservableCell::new(self),
            rects: Vec::new(),
            next_rect_id: 0,
            dirty: true,
            rect: Rect { x: 0, y: 0, w: 0, h: 0 },
            layout: WidgetLayoutEvents::new(),
            command_group: CommandGroup::new(),
            visibility: Visibility::Visible,
            drop_event: EventQueue::new(),
        };
        proof {
            assert(w@.records =~= Seq::<RecordV>::empty());
        }
        w
    }
}

/// Leftmost index of the record registered under `id` among the first `i`.
pub open spec fn find_in_prefix(rs: Seq<RecordV>, id: u64, i: int) -> Option<int>
    decreases i,
{
    if i <= 0 {
        None
    } else {
        match find_in_prefix(rs, id, i - 1) {
            Some(k) => Some(k),
            None => if rs[i - 1].id == id {
                Some(i - 1)
            } else {
                None
            },
        }
    }
}

impl VStackWidget {
    /// The container's internal invariant: its own geometry, parameters and
    /// every child record are within coordinate range, and record identifiers
    /// were all allocated below the next fresh identifier.
    pub closed spec fn wf(&self) -> bool {
        &&& self.rect.in_bounds()
        &&& self.layout.wf()
        &&& self@.data.wf()
        &&& forall|i: int|
            0 <= i < self@.records.len() ==> record_wf(#[trigger] self@.records[i])
                && self@.records[i].id < self@.next_id
    }

    /// The stack's default layout parameters for children pushed without
    /// explicit layout information.
    pub fn data(&self) -> (d: VStack)
        ensures
            d == self@.data,
    {
        *self.data.get()
    }

    /// Replaces the stack's default layout parameters, broadcasting a change.
    pub fn set_data(&mut self, data: VStack)
        requires
            old(self).wf(),
            data.wf(),
        ensures
            final(self).wf(),
            final(self)@ == (VStackView {
                data,
                data_changes: old(self)@.data_changes.push(Change),
                ..old(self)@
            }),
    {
        self.data.set(data);
    }

    pub fn bounds(&self) -> (r: Rect)
        ensures
            r == self@.rect,
    {
        self.rect
    }

    /// Whether the container must re-issue its draw commands.
    pub fn needs_repaint(&self) -> (b: bool)
        ensures
            b == self@.repaint,
    {
        self.command_group.repaint_needed
    }

    /// One draw pass: an abstract layout container renders nothing itself, so
    /// this only marks the pending command batch as issued.
    pub fn draw(&mut self)
        ensures
            final(self)@ == (VStackView { repaint: false, ..old(self)@ }),
            final(self).wf() == old(self).wf(),
    {
        self.command_group.repaint_needed = false;
    }

    /// A transform of the container from outside marks it dirty and reports
    /// the new rectangle upward.
    pub fn on_transform(&mut self)
        requires
            old(self).wf(),
        ensures
            final(self).wf(),
            final(self)@ == (VStackView {
                dirty: true,
                slot: SlotView {
                    outbox: if old(self)@.slot.id is Some {
                        Some(old(self)@.rect)
                    } else {
                        old(self)@.slot.outbox
                    },
                    ..old(self)@.slot
                },
                ..old(self)@
            }),
    {
        self.dirty = true;
        self.layout.notify(self.rect);
    }

    /// Recomputes the container's intrinsic content size (the sum of the
    /// children's heights and margins, and the maximum child width) and
    /// adopts it as the container's own size: a container's size is derived,
    /// never independently set.
    fn resize_to_fit(&mut self)
        requires
            old(self).wf(),
        ensures
            final(self).wf(),
            final(self)@ == (VStackView {
                rect: Rect {
                    w: cw_prefix(old(self)@.records, old(self)@.records.len() as int) as i64,
                    h: ch_prefix(old(self)@.records, old(self)@.records.len() as int) as i64,
                    ..old(self)@.rect
                },
                repaint: true,
                slot: SlotView {
                    outbox: if old(self)@.slot.id is Some {
                        Some(
                            Rect {
                                w: cw_prefix(
                                    old(self)@.records,
                                    old(self)@.records.len() as int,
                                ) as i64,
                                h: ch_prefix(
                                    old(self)@.records,
                                    old(self)@.records.len() as int,
                                ) as i64,
                                ..old(self)@.rect
                            },
                        )
                    } else {
                        old(self)@.slot.outbox
                    },
                    ..old(self)@.slot
                },
                ..old(self)@
            }),
    {
        let ghost rs = self@.records;
        let mut max_w: i64 = 0;
        let mut acc_h: i64 = 0;
        let n = self.rects.len();
        let mut i: usize = 0;
        while i < n
            invariant
                i <= n,
                n == rs.len(),
                rs == self@.records,
                self.wf(),
                max_w as int == cw_prefix(rs, i as int),
                acc_h as int == ch_prefix(rs, i as int),
                0 <= max_w <= crate::geom::COORD_LIMIT,
                0 <= acc_h <= crate::geom::COORD_LIMIT,
            decreases n - i,
        {
            let rec = &self.rects[i];
            proof {
                assert(rec.view() == rs[i as int]);
                assert(record_wf(rs[i as int]));
            }
            if rec.rect.w > max_w {
                max_w = rec.rect.w;
            }
            acc_h = clamp_dim(acc_h + rec.item.top_margin + rec.rect.h + rec.item.bottom_margin);
            i = i + 1;
        }
        self.rect.w = max_w;
        self.rect.h = acc_h;
        self.command_group.repaint();
        self.layout.notify(self.rect);
    }

    /// Registers a child: allocates a fresh identifier, binds the child's
    /// layout slot to it, and records the child's current rectangle as both
    /// its last known and its original rectangle. The child's layout
    /// information defaults to the stack's own parameters.
    pub fn push<W: LayableWidget>(&mut self, data: Option<VStackItem>, child: &mut W)
        requires
            old(self).wf(),
            old(child).wf(),
            old(self)@.next_id < u64::MAX,
            data is Some ==> data->Some_0.wf(),
        ensures
            final(self).wf(),
            final(child).wf(),
            final(child).slot_of() == (SlotView {
                id: Some(old(self)@.next_id),
                inbox: None,
                outbox: None,
            }),
            final(child).rect_of() == old(child).rect_of(),
            final(child).drops_of() == old(child).drops_of(),
            final(child).same_core(old(child)),
            ({
                let recs1 = old(self)@.records.push(
                    RecordV {
                        item: match data {
                            Some(it) => it,
                            None => VStackItem {
                                top_margin: old(self)@.data.top_margin,
                                bottom_margin: old(self)@.data.bottom_margin,
                                alignment: old(self)@.data.alignment,
                            },
                        },
                        assign: None,
                        report: None,
                        drop_cursor: old(child).drops_of().len() as int,
                        dropped: false,
                        rect: old(child).rect_of(),
                        original_rect: old(child).rect_of(),
                        id: old(self)@.next_id,
                    },
                );
                let cr = Rect {
                    w: cw_prefix(recs1, recs1.len() as int) as i64,
                    h: ch_prefix(recs1, recs1.len() as int) as i64,
                    ..old(self)@.rect
                };
                final(self)@ == (VStackView {
                    records: recs1,
                    next_id: (old(self)@.next_id + 1) as u64,
                    dirty: true,
                    rect: cr,
                    repaint: true,
                    slot: SlotView {
                        outbox: if old(self)@.slot.id is Some {
                            Some(cr)
                        } else {
                            old(self)@.slot.outbox
                        },
                        ..old(self)@.slot
                    },
                    ..old(self)@
                })
            }),
    {
        self.dirty = true;

        let id = self.next_rect_id;
        self.next_rect_id = self.next_rect_id + 1;

        let link: BidirQueue<Rect, Rect> = BidirQueue::new();

        child.listen_to_layout(Some(id));

        let rect = child.bounds();
        proof {
            old(child).lemma_wf_rect();
        }
        let drop_listener = child.drop_event().listen();

        let item = match data {
            Some(it) => it,
            None => {
                let d = *self.data.get();
                VStackItem {
                    top_margin: d.top_margin,
                    bottom_margin: d.bottom_margin,
                    alignment: d.alignment,
                }
            },
        };

        self.rects.push(
            ChildRecord { item, link, drop_listener, dropped: false, rect, original_rect: rect, id },
        );
        proof {
            assert(self@.records =~= old(self)@.records.push(
                RecordV {
                    item,
                    assign: None,
                    report: None,
                    drop_cursor: old(child).drops_of().len() as int,
                    dropped: false,
                    rect,
                    original_rect: rect,
                    id,
                },
            ));
        }

        self.resize_to_fit();
    }

    /// Unregisters a child if it is managed by this container: purges the
    /// record, unbinds the child's layout slot and, when `restore_original`
    /// is set, resets the child's rectangle to the one recorded when it was
    /// pushed, even if the container assigned it different rectangles in the
    /// interim.
    pub fn remove<W: LayableWidget>(&mut self, child: &mut W, restore_original: bool)
        requires
            old(self).wf(),
            old(child).wf(),
        ensures
            final(self).wf(),
            final(child).wf(),
            final(child).same_core(old(child)),
            final(child).drops_of() == old(child).drops_of(),
            ({
                let found = match old(child).slot_of().id {
                    Some(id) => find_in_prefix(
                        old(self)@.records,
                        id,
                        old(self)@.records.len() as int,
                    ),
                    None => None,
                };
                match found {
                    Some(j) => {
                        &&& final(self)@ == (VStackView {
                            records: old(self)@.records.remove(j),
                            dirty: true,
                            ..old(self)@
                        })
                        &&& final(child).slot_of() == (SlotView {
                            id: None,
                            inbox: None,
                            outbox: None,
                        })
                        &&& final(child).rect_of() == if restore_original {
                            old(self)@.records[j].original_rect
                        } else {
                            old(child).rect_of()
                        }
                    },
                    None => {
                        &&& final(self)@ == old(self)@
                        &&& final(child).slot_of() == old(child).slot_of()
                        &&& final(child).rect_of() == old(child).rect_of()
                    },
                }
            }),
    {
        let id_opt = child.layout_id();
        match id_opt {
            None => {
                proof {
                    child.lemma_same_core_refl();
                }
            },
            Some(id) => {
                let ghost rs = self@.records;
                let n = self.rects.len();
                let mut j: usize = 0;
                let mut found: bool = false;
                while !found && j < n
                    invariant
                        j <= n,
                        n == rs.len(),
                        rs == self@.records,
                        find_in_prefix(rs, id, j as int) is None,
                        found ==> j < n && rs[j as int].id == id,
                    decreases n - j, (if found { 0int } else { 1int }),
                {
                    if self.rects[j].id == id {
                        found = true;
                    } else {
                        j = j + 1;
                    }
                }
                if found {
                    proof {
                        assert(find_in_prefix(rs, id, j + 1 as int) == Some(j as int));
                        lemma_find_extends(rs, id, j + 1 as int, rs.len() as int);
                        assert(record_wf(rs[j as int]));
                    }
                    let rec = self.rects.remove(j);
                    self.dirty = true;
                    child.listen_to_layout(None);
                    let ghost mid = *child;
                    if restore_original {
                        proof {
                            assert(rec.view() == rs[j as int]);
                        }
                        child.set_ctxt_rect(rec.original_rect);
                        proof {
                            W::lemma_same_core_trans(*child, mid, *old(child));
                        }
                    }
                    proof {
                        assert(self@.records =~= rs.remove(j as int));
                    }
                } else {
                    proof {
                        child.lemma_same_core_refl();
                    }
                }
            },
        }
    }
}

/// Walking records preserves their well-formedness and identifier bound.
pub proof fn lemma_step_prefix_wf(rs: Seq<RecordV>, i: int, bound: u64)
    requires
        0 <= i <= rs.len(),
        forall|k: int| 0 <= k < rs.len() ==> record_wf(#[trigger] rs[k]) && rs[k].id < bound,
    ensures
        step_prefix(rs, i).0.len() <= i,
        forall|k: int|
            0 <= k < step_prefix(rs, i).0.len() ==> record_wf(#[trigger] step_prefix(rs, i).0[k])
                && step_prefix(rs, i).0[k].id < bound,
    decreases i,
{
    if i > 0 {
        lemma_step_prefix_wf(rs, i - 1, bound);
    }
}

/// The content width is the maximum child width: non-negative, within range,
/// and at least every child's width.
pub proof fn lemma_cw_bounds(rs: Seq<RecordV>, i: int)
    requires
        0 <= i <= rs.len(),
        forall|k: int| 0 <= k < rs.len() ==> record_wf(#[trigger] rs[k]),
    ensures
        0 <= cw_prefix(rs, i) <= crate::geom::COORD_LIMIT,
        forall|t: int| 0 <= t < i ==> #[trigger] rs[t].rect.w <= cw_prefix(rs, i),
    decreases i,
{
    if i > 0 {
        lemma_cw_bounds(rs, i - 1);
    }
}

/// The content height accumulator stays within dimension range.
pub proof fn lemma_ch_bounds(rs: Seq<RecordV>, i: int)
    ensures
        0 <= ch_prefix(rs, i) <= crate::geom::COORD_LIMIT,
{
    if i > 0 {
        assert(ch_prefix(rs, i) == clamp_dim_spec(
            ch_prefix(rs, i - 1) + rs[i - 1].item.top_margin + rs[i - 1].rect.h + rs[i
                - 1].item.bottom_margin,
        ));
    }
}

impl VStackWidget {
    /// One update tick: adopt an own assigned rectangle, purge children whose
    /// drop notification arrived (without restoring their geometry), consume
    /// child geometry reports (any inbound event is a dirty trigger), and
    /// when dirty resize to fit and assign every remaining child its
    /// rectangle in registration order, clearing the dirty flag only after
    /// all children are processed.
    #[verifier::rlimit(100)]
    pub fn update(&mut self)
        requires
            old(self).wf(),
        ensures
            final(self).wf(),
            final(self)@ == vstack_update(old(self)@),
    {
        let ghost v0 = self@;

        // Adopt a rectangle assigned by this stack's own parent.
        let assigned = self.layout.receive();
        match assigned {
            Some(r) => {
                self.rect = r;
                self.dirty = true;
                self.command_group.repaint();
            },
            None => {},
        }
        proof {
            assert(self@ == vstack_phase_inbox(v0));
        }
        let ghost v1 = self@;
        let ghost rs1 = v1.records;

        // Purge dropped children and consume child reports, in order.
        let mut kept: Vec<ChildRecord> = Vec::new();
        let mut trigger: bool = false;
        let n = self.rects.len();
        let mut i: usize = 0;
        while i < n
            invariant
                i <= n,
                n == rs1.len(),
                self.rects@.len() == n - i,
                forall|k: int|
                    0 <= k < self.rects@.len() ==> (#[trigger] self.rects@[k]).view() == rs1[i + k],
                kept@.map_values(|r: ChildRecord| r.view()) =~= step_prefix(rs1, i as int).0,
                trigger == step_prefix(rs1, i as int).1,
                self.rect == v1.rect,
                self.dirty == v1.dirty,
                self.layout@ == v1.slot,
                self.layout.wf(),
                self.command_group.repaint_needed == v1.repaint,
                self.data@.value == v1.data,
                self.data@.changes == v1.data_changes,
                self.next_rect_id == v1.next_id,
                self.visibility == v1.visibility,
                self.drop_event@ == v1.drops,
                self.rect.in_bounds(),
                self@.data.wf(),
            decreases n - i,
        {
            let mut rec = self.rects.remove(0);
            proof {
                assert(rec.view() == rs1[i as int]);
            }
            if rec.dropped {
                trigger = true;
            } else {
                let report = rec.link.retrieve_newest_primary();
                match report {
                    Some(nr) => {
                        trigger = true;
                        if nr.check_in_bounds() {
                            rec.rect = nr;
                        }
                    },
                    None => {},
                }
                kept.push(rec);
            }
            proof {
                assert(kept@.map_values(|r: ChildRecord| r.view()) =~= step_prefix(
                    rs1,
                    i + 1 as int,
                ).0);
            }
            i = i + 1;
        }
        if trigger {
            self.dirty = true;
        }
        self.rects = kept;
        let ghost pr = step_prefix(rs1, rs1.len() as int);
        proof {
            assert(self@.records =~= pr.0);
            lemma_step_prefix_wf(rs1, rs1.len() as int, v1.next_id);
            assert(self@ == VStackView { records: pr.0, dirty: v1.dirty || pr.1, ..v1 });
        }
        let ghost rs2 = pr.0;

        // Rearrange when anything marked the stack dirty.
        if self.dirty {
            self.resize_to_fit();
            proof {
                lemma_cw_bounds(rs2, rs2.len() as int);
                lemma_ch_bounds(rs2, rs2.len() as int);
            }
            let cr = self.rect;
            let ghost v2 = self@;

            let mut work: Vec<ChildRecord> = Vec::new();
            core::mem::swap(&mut work, &mut self.rects);
            let m = work.len();
            let mut advance: i64 = cr.y;
            let mut k: usize = 0;
            while k < m
                invariant
                    k <= m,
                    m == rs2.len(),
                    work@.len() == m - k,
                    forall|t: int|
                        0 <= t < work@.len() ==> (#[trigger] work@[t]).view() == rs2[k + t],
                    forall|t: int| 0 <= t < rs2.len() ==> record_wf(#[trigger] rs2[t]),
                    forall|t: int| 0 <= t < rs2.len() ==> #[trigger] rs2[t].rect.w <= cr.w,
                    cr.in_bounds(),
                    cr == v2.rect,
                    advance as int == adv_at(rs2, cr, k as int),
                    -crate::geom::COORD_LIMIT <= advance <= crate::geom::COORD_LIMIT,
                    self.rects@.len() == k,
                    forall|t: int|
                        0 <= t < k ==> (#[trigger] self.rects@[t]).view() == arranged_records(
                            rs2,
                            cr,
                        )[t],
                    self.rect == v2.rect,
                    self.dirty == v2.dirty,
                    self.layout@ == v2.slot,
                    self.layout.wf(),
                    self.command_group.repaint_needed == v2.repaint,
                    self.data@.value == v2.data,
                    self.data@.changes == v2.data_changes,
                    self.next_rect_id == v2.next_id,
                    self.visibility == v2.visibility,
                    self.drop_event@ == v2.drops,
                    self.rect.in_bounds(),
                    self@.data.wf(),
                decreases m - k,
            {
                let mut rec = work.remove(0);
                proof {
                    assert(rec.view() == rs2[k as int]);
                }
                let y = clamp_coord(advance + rec.item.top_margin);
                let w = rec.rect.w;
                let x = match rec.item.alignment {
                    Align::Begin => cr.x,
                    Align::Middle => clamp_coord(cr.x + (cr.w - w) / 2),
                    Align::End => clamp_coord(cr.x + cr.w - w),
                    Align::Stretch => cr.x,
                };
                let neww = match rec.item.alignment {
                    Align::Stretch => cr.w,
                    _ => w,
                };
                let newr = Rect { x, y, w: neww, h: rec.rect.h };
                proof {
                    assert(newr == placed_rect(rs2, cr, k as int));
                }
                rec.link.emit_primary(newr);
                let bottom = rec.item.bottom_margin;
                let h = rec.rect.h;
                rec.rect = newr;
                self.rects.push(rec);
                advance = clamp_coord(y + h + bottom);
                proof {
                    assert(advance as int == adv_at(rs2, cr, k + 1 as int));
                }
                k = k + 1;
            }
            self.dirty = false;
            proof {
                assert(self@.records =~= arranged_records(rs2, cr));
                assert(self@ == vstack_update(v0));
            }
        } else {
            proof {
                assert(self@ == vstack_update(v0));
            }
        }
    }

    /// Exchanges pending layout traffic between this container and a child it
    /// manages: the child's drop notification is observed, the child's
    /// pending geometry report moves into the container's end of the queue,
    /// and a pending assigned rectangle moves into the child's inbox. A child
    /// this container does not manage is left untouched.
    pub fn sync_child<W: LayableWidget>(&mut self, child: &mut W)
        requires
            old(self).wf(),
            old(child).wf(),
        ensures
            final(self).wf(),
            final(child).wf(),
            final(child).same_core(old(child)),
            final(child).rect_of() == old(child).rect_of(),
            final(child).drops_of() == old(child).drops_of(),
            ({
                let found = match old(child).slot_of().id {
                    Some(id) => find_in_prefix(
                        old(self)@.records,
                        id,
                        old(self)@.records.len() as int,
                    ),
                    None => None,
                };
                match found {
                    Some(j) => {
                        let rec = old(self)@.records[j];
                        &&& final(self)@ == (VStackView {
                            records: old(self)@.records.update(
                                j,
                                RecordV {
                                    dropped: rec.dropped || pending(
                                        old(child).drops_of(),
                                        rec.drop_cursor,
                                    ).len() > 0,
                                    report: if old(child).slot_of().outbox is Some {
                                        old(child).slot_of().outbox
                                    } else {
                                        rec.report
                                    },
                                    assign: None,
                                    ..rec
                                },
                            ),
                            ..old(self)@
                        })
                        &&& final(child).slot_of() == (SlotView {
                            inbox: if rec.assign is Some {
                                rec.assign
                            } else {
                                old(child).slot_of().inbox
                            },
                            outbox: None,
                            ..old(child).slot_of()
                        })
                    },
                    None => {
                        &&& final(self)@ == old(self)@
                        &&& final(child).slot_of() == old(child).slot_of()
                    },
                }
            }),
    {
        let id_opt = child.layout_id();
        match id_opt {
            None => {
                proof {
                    child.lemma_same_core_refl();
                }
            },
            Some(id) => {
                let ghost rs = self@.records;
                let n = self.rects.len();
                let mut j: usize = 0;
                let mut found: bool = false;
                while !found && j < n
                    invariant
                        j <= n,
                        n == rs.len(),
                        rs == self@.records,
                        find_in_prefix(rs, id, j as int) is None,
                        found ==> j < n && rs[j as int].id == id,
                    decreases n - j, (if found { 0int } else { 1int }),
                {
                    if self.rects[j].id == id {
                        found = true;
                    } else {
                        j = j + 1;
                    }
                }
                if found {
                    proof {
                        assert(find_in_prefix(rs, id, j + 1 as int) == Some(j as int));
                        lemma_find_extends(rs, id, j + 1 as int, rs.len() as int);
                        assert(record_wf(rs[j as int]));
                    }
                    let ghost c0 = *child;
                    let rec = &mut self.rects[j];
                    let pending_drops = child.drop_event().peek_count(&rec.drop_listener);
                    if pending_drops > 0 {
                        rec.dropped = true;
                    }
                    let report = child.take_report();
                    let ghost c1 = *child;
                    match report {
                        Some(r) => {
                            proof {
                                c0.lemma_wf_slot();
                            }
                            rec.link.emit_secondary(r);
                        },
                        None => {},
                    }
                    let assigned = rec.link.retrieve_newest_secondary();
                    match assigned {
                        Some(a) => {
                            child.put_assignment(a);
                            proof {
                                W::lemma_same_core_trans(*child, c1, c0);
                            }
                        },
                        None => {},
                    }
                    proof {
                        assert(self@.records =~= rs.update(
                            j as int,
                            RecordV {
                                dropped: rs[j as int].dropped || pending(
                                    c0.drops_of(),
                                    rs[j as int].drop_cursor,
                                ).len() > 0,
                                report: if c0.slot_of().outbox is Some {
                                    c0.slot_of().outbox
                                } else {
                                    rs[j as int].report
                                },
                                assign: None,
                                ..rs[j as int]
                            },
                        ));
                    }
                } else {
                    proof {
                        child.lemma_same_core_refl();
                    }
                }
            },
        }
    }
}

impl LayableWidget for VStackWidget {
    open spec fn wf(&self) -> bool {
        VStackWidget::wf(self)
    }

    open spec fn rect_of(&self) -> Rect {
        self@.rect
    }

    open spec fn slot_of(&self) -> SlotView {
        self@.slot
    }

    open spec fn drops_of(&self) -> Seq<DropEvent> {
        self@.drops
    }

    open spec fn same_core(&self, other: &Self) -> bool {
        &&& self@.data == other@.data
        &&& self@.data_changes == other@.data_changes
        &&& self@.records == other@.records
        &&& self@.next_id == other@.next_id
        &&& self@.visibility == other@.visibility
        &&& self@.drops == other@.drops
    }

    proof fn lemma_same_core_refl(&self) {
    }

    proof fn lemma_same_core_trans(a: Self, b: Self, c: Self) {
    }

    proof fn lemma_wf_rect(&self) {
    }

    proof fn lemma_wf_slot(&self) {
    }

    fn bounds(&self) -> (r: Rect) {
        self.rect
    }

    fn layout_id(&self) -> (r: Option<u64>) {
        self.layout.id()
    }

    fn listen_to_layout(&mut self, binding: Option<u64>) {
        self.layout.update(binding);
    }

    fn set_ctxt_rect(&mut self, r: Rect) {
        self.rect = r;
        self.dirty = true;
        self.command_group.repaint();
        self.layout.notify(r);
    }

    fn take_report(&mut self) -> (r: Option<Rect>) {
        self.layout.take_report()
    }

    fn put_assignment(&mut self, r: Rect) {
        self.layout.give(r);
    }

    fn drop_event(&self) -> (q: &EventQueue<DropEvent>) {
        &self.drop_event
    }
}

/// A leftmost match among the first `i` records stays the leftmost match of
/// any longer prefix.
pub proof fn lemma_find_extends(rs: Seq<RecordV>, id: u64, i: int, n: int)
    requires
        0 <= i <= n <= rs.len(),
        find_in_prefix(rs, id, i) is Some,
    ensures
        find_in_prefix(rs, id, n) == find_in_prefix(rs, id, i),
    decreases n - i,
{
    if i < n {
        lemma_find_extends(rs, id, i + 1, n);
    }
}

/// Records with no drop observed and no pending report pass through the
/// per-record walk unchanged, with no dirty trigger.
pub proof fn lemma_step_prefix_identity(rs: Seq<RecordV>, i: int)
    requires
        0 <= i <= rs.len(),
        forall|k: int|
            0 <= k < rs.len() ==> !(#[trigger] rs[k]).dropped && rs[k].report is None,
    ensures
        step_prefix(rs, i).0 == rs.subrange(0, i),
        step_prefix(rs, i).1 == false,
    decreases i,
{
    if i > 0 {
        lemma_step_prefix_identity(rs, i - 1);
        assert(step_prefix(rs, i).0 =~= rs.subrange(0, i));
    } else {
        assert(step_prefix(rs, i).0 =~= rs.subrange(0, i));
    }
}

/// Layout idempotence: if no child was pushed or removed, no drop arrived, no
/// child reported a geometry change and the stack's own inbox is empty, an
/// update of a clean (non-dirty) container changes nothing - in particular it
/// re-emits no rectangle to any child.
pub proof fn lemma_layout_idempotent(v: VStackView)
    requires
        !v.dirty,
        v.slot.inbox is None,
        forall|k: int|
            0 <= k < v.records.len() ==> !(#[trigger] v.records[k]).dropped && v.records[k].report
                is None,
    ensures
        vstack_update(v) == v,
{
    lemma_step_prefix_identity(v.records, v.records.len() as int);
    assert(v.records.subrange(0, v.records.len() as int) =~= v.records);
}

/// Every record surviving the per-record walk descends from a record whose
/// drop notification had not been observed, keeping its identifier and the
/// original rectangle recorded when its child was pushed.
pub proof fn lemma_step_prefix_provenance(rs: Seq<RecordV>, i: int)
    requires
        0 <= i <= rs.len(),
    ensures
        forall|k: int|
            0 <= k < step_prefix(rs, i).0.len() ==> exists|m: int|
                0 <= m < i && !rs[m].dropped && (#[trigger] step_prefix(rs, i).0[k]).id == rs[m].id
                    && step_prefix(rs, i).0[k].original_rect == rs[m].original_rect,
    decreases i,
{
    if i > 0 {
        lemma_step_prefix_provenance(rs, i - 1);
        let prev = step_prefix(rs, i - 1).0;
        let out = step_prefix(rs, i).0;
        if !rs[i - 1].dropped {
            assert forall|k: int| 0 <= k < out.len() implies exists|m: int|
                0 <= m < i && !rs[m].dropped && (#[trigger] out[k]).id == rs[m].id
                    && out[k].original_rect == rs[m].original_rect by {
                if k < prev.len() {
                    assert(out[k] == prev[k]);
                    let m = choose|m: int|
                        0 <= m < i - 1 && !rs[m].dropped && (#[trigger] prev[k]).id == rs[m].id
                            && prev[k].original_rect == rs[m].original_rect;
                    assert(0 <= m < i && !rs[m].dropped && out[k].id == rs[m].id
                        && out[k].original_rect == rs[m].original_rect);
                } else {
                    assert(out[k] == step_record(rs[i - 1]).0);
                    assert(0 <= i - 1 < i && !rs[i - 1].dropped && out[k].id == rs[i - 1].id
                        && out[k].original_rect == rs[i - 1].original_rect);
                }
            }
        }
    }
}

/// An update keeps, for every surviving record, the identifier and the
/// original rectangle of a record whose child had not dropped: assigned
/// rectangles never disturb what `remove` would restore.
pub proof fn lemma_update_provenance(v: VStackView)
    ensures
        forall|k: int|
            0 <= k < vstack_update(v).records.len() ==> exists|m: int|
                0 <= m < v.records.len() && !v.records[m].dropped && (#[trigger] vstack_update(
                    v,
                ).records[k]).id == v.records[m].id && vstack_update(v).records[k].original_rect
                    == v.records[m].original_rect,
{
    let v1 = vstack_phase_inbox(v);
    let rs = v1.records;
    lemma_step_prefix_provenance(rs, rs.len() as int);
    let recs2 = step_prefix(rs, rs.len() as int).0;
    let out = vstack_update(v).records;
    assert(rs == v.records);
    assert forall|k: int| 0 <= k < out.len() implies exists|m: int|
        0 <= m < v.records.len() && !v.records[m].dropped && (#[trigger] out[k]).id
            == v.records[m].id && out[k].original_rect == v.records[m].original_rect by {
        assert(out[k].id == recs2[k].id && out[k].original_rect == recs2[k].original_rect);
        let m = choose|m: int|
            0 <= m < rs.len() && !rs[m].dropped && (#[trigger] recs2[k]).id == rs[m].id
                && recs2[k].original_rect == rs[m].original_rect;
        assert(0 <= m < v.records.len() && !v.records[m].dropped && out[k].id == v.records[m].id
            && out[k].original_rect == v.records[m].original_rect);
    }
}

/// Drop cleanup: once a child's drop notification has been observed, the next
/// update purges its record, so no rectangle is pushed to it then or later
/// (record identifiers assumed distinct, as `push` allocates them).
pub proof fn lemma_drop_cleanup(v: VStackView, j: int)
    requires
        0 <= j < v.records.len(),
        v.records[j].dropped,
        forall|a: int, b: int|
            0 <= a < b < v.records.len() ==> (#[trigger] v.records[a]).id != (
            #[trigger] v.records[b]).id,
    ensures
        forall|k: int|
            0 <= k < vstack_update(v).records.len() ==> (#[trigger] vstack_update(
                v,
            ).records[k]).id != v.records[j].id,
{
    lemma_update_provenance(v);
    let out = vstack_update(v).records;
    assert forall|k: int| 0 <= k < out.len() implies (#[trigger] out[k]).id != v.records[j].id by {
        let m = choose|m: int|
            0 <= m < v.records.len() && !v.records[m].dropped && (#[trigger] out[k]).id
                == v.records[m].id && out[k].original_rect == v.records[m].original_rect;
        assert(m != j);
        if m < j {
            assert(v.records[m].id != v.records[j].id);
        } else {
            assert(v.records[j].id != v.records[m].id);
        }
    }
}

/// Alignment correctness: within a container rectangle of width `W`, a child
/// of width `w` is placed at horizontal offset `0` under `Begin`, at
/// `(W - w) / 2` under `Middle` and at `W - w` under `End`; `Stretch` forces
/// the child's width to `W` at offset `0`. The container's right edge is
/// assumed within coordinate range, so no clamping applies.
pub proof fn lemma_alignment_correct(rs: Seq<RecordV>, cr: Rect, i: int)
    requires
        0 <= i < rs.len(),
        record_wf(rs[i]),
        cr.in_bounds(),
        rs[i].rect.w <= cr.w,
        cr.x + cr.w <= crate::geom::COORD_LIMIT,
    ensures
        rs[i].item.alignment == Align::Begin ==> placed_rect(rs, cr, i).x == cr.x && placed_rect(
            rs,
            cr,
            i,
        ).w == rs[i].rect.w,
        rs[i].item.alignment == Align::Middle ==> placed_rect(rs, cr, i).x - cr.x == (cr.w
            - rs[i].rect.w) / 2,
        rs[i].item.alignment == Align::End ==> placed_rect(rs, cr, i).x - cr.x == cr.w
            - rs[i].rect.w,
        rs[i].item.alignment == Align::Stretch ==> placed_rect(rs, cr, i).x == cr.x && placed_rect(
            rs,
            cr,
            i,
        ).w == cr.w,
{
    let w = rs[i].rect.w as int;
    assert(0 <= (cr.w - w) / 2 <= cr.w - w) by {
        assert(cr.w - w >= 0);
    };
}

} // verus!
