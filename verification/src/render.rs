//! The repaint of a window: what has to be written to the terminal so that it
//! shows the new window, given the window that it shows now.
//!
//! Nothing here touches a terminal. A repaint is a list of operations on
//! slots, the rows of the lyrics area counted from its top.

use vstd::prelude::*;
use crate::window::{DisplayWindow, WindowView};

verus! {

/// The row of the terminal that shows slot 0.
pub const FIRST_ROW: u16 = 3;

/// How bright a line is painted.
#[derive(Clone, Copy, Debug, PartialEq, Eq, Structural)]
pub enum Tone {
    /// The marked line: the brightest.
    Active,
    /// Any other line. It is dimmer the larger `depth + FIRST_ROW` is against
    /// `span`: `depth` says how far down the line stands and `span` how long
    /// the window is.
    Dimmed { depth: usize, span: usize },
}

/// One write to the terminal.
#[derive(Clone, Debug, PartialEq, Eq)]
pub enum RenderOp {
    /// Clears the row of `slot` and prints `text` there in `tone`.
    Write { slot: usize, text: String, tone: Tone },
    /// Clears the row of `slot`.
    Clear { slot: usize },
}

/// The mathematical content of a [`RenderOp`].
pub enum OpView {
    Write { slot: nat, text: Seq<char>, tone: Tone },
    Clear { slot: nat },
}

impl OpView {
    /// The slot that the operation writes to.
    pub open spec fn slot(self) -> nat {
        match self {
            OpView::Write { slot, .. } => slot,
            OpView::Clear { slot } => slot,
        }
    }
}

impl View for RenderOp {
    type V = OpView;

    open spec fn view(&self) -> OpView {
        match self {
            RenderOp::Write { slot, text, tone } => OpView::Write {
                slot: *slot as nat,
                text: text@,
                tone: *tone,
            },
            RenderOp::Clear { slot } => OpView::Clear { slot: *slot as nat },
        }
    }
}

/// The operations of a list, each by its content.
pub open spec fn ops_view(ops: Seq<RenderOp>) -> Seq<OpView> {
    Seq::new(ops.len(), |i: int| ops[i]@)
}

/// What one row of the lyrics area shows.
pub struct Cell {
    pub text: Seq<char>,
    pub tone: Tone,
}

/// What stands in front of the marked line.
pub open spec fn marker() -> Seq<char> {
    seq!['>', ' ']
}

/// The depth of a slot: its distance from the top, where the top three count
/// alike.
pub open spec fn depth_of(slot: int) -> int {
    if slot < 2 {
        2
    } else {
        slot
    }
}

/// The span of a window of `len` lines: its length, where windows of up to
/// seven lines count alike.
pub open spec fn span_of(len: nat) -> nat {
    if len < 7 {
        7
    } else {
        len
    }
}

/// `a` is painted no brighter than `b`.
pub open spec fn no_brighter(a: Tone, b: Tone) -> bool {
    match (a, b) {
        (_, Tone::Active) => true,
        (Tone::Active, Tone::Dimmed { .. }) => false,
        (Tone::Dimmed { depth: da, span: sa }, Tone::Dimmed { depth: db, span: sb }) => (da
            + FIRST_ROW) * sb >= (db + FIRST_ROW) * sa,
    }
}

impl WindowView {
    /// Slot `slot` is the marked one.
    pub open spec fn marks(self, slot: int) -> bool {
        self.marked && slot == self.active_index
    }

    /// What slot `slot` shows when this window is on display.
    pub open spec fn cell(self, slot: int) -> Cell {
        if self.marks(slot) {
            Cell { text: marker() + self.lines[slot].0, tone: Tone::Active }
        } else {
            Cell {
                text: self.lines[slot].0,
                tone: Tone::Dimmed {
                    depth: depth_of(slot) as usize,
                    span: span_of(self.lines.len()) as usize,
                },
            }
        }
    }
}

/// What has to be done to slot `slot` to get from `prev` to `new`: a write
/// where `new` shows something that `prev` did not show there, a clear where
/// `new` has no line but `prev` had one, and nothing otherwise.
pub open spec fn slot_op(new: WindowView, prev: WindowView, slot: int) -> Option<OpView> {
    if 0 <= slot < new.lines.len() {
        if slot < prev.lines.len() && new.cell(slot) == prev.cell(slot) {
            None
        } else {
            Some(
                OpView::Write {
                    slot: slot as nat,
                    text: new.cell(slot).text,
                    tone: new.cell(slot).tone,
                },
            )
        }
    } else if 0 <= slot < prev.lines.len() {
        Some(OpView::Clear { slot: slot as nat })
    } else {
        None
    }
}

/// The operations for the first `n` slots, from the top down.
pub open spec fn plan_upto(new: WindowView, prev: WindowView, n: nat) -> Seq<OpView>
    decreases n,
{
    if n == 0 {
        Seq::empty()
    } else {
        let above = plan_upto(new, prev, (n - 1) as nat);
        match slot_op(new, prev, n - 1) {
            Some(op) => above.push(op),
            None => above,
        }
    }
}

/// The number of slots that either window uses.
pub open spec fn slots_used(new: WindowView, prev: WindowView) -> nat {
    if new.lines.len() >= prev.lines.len() {
        new.lines.len()
    } else {
        prev.lines.len()
    }
}

/// The repaint that takes a terminal from showing `prev` to showing `new`.
pub open spec fn plan(new: WindowView, prev: WindowView) -> Seq<OpView> {
    plan_upto(new, prev, slots_used(new, prev))
}

/// What the lyrics area shows, slot by slot, while `w` is on display.
pub open spec fn screen_of(w: WindowView) -> Map<int, Cell> {
    Map::new(|slot: int| 0 <= slot < w.lines.len(), |slot: int| w.cell(slot))
}

/// The screen after one operation.
pub open spec fn apply(screen: Map<int, Cell>, op: OpView) -> Map<int, Cell> {
    match op {
        OpView::Write { slot, text, tone } => screen.insert(slot as int, Cell { text, tone }),
        OpView::Clear { slot } => screen.remove(slot as int),
    }
}

/// The screen after a list of operations, carried out in order.
pub open spec fn apply_all(screen: Map<int, Cell>, ops: Seq<OpView>) -> Map<int, Cell>
    decreases ops.len(),
{
    if ops.len() == 0 {
        screen
    } else {
        apply(apply_all(screen, ops.drop_last()), ops.last())
    }
}

/// A window that is already on display needs no repaint: rendering with the
/// same window as new and as previous gives no operation at all.
pub proof fn law_same_window_needs_no_paint(w: WindowView)
    ensures
        plan(w, w) == Seq::<OpView>::empty(),
{
    lemma_no_change_no_ops(w, w.lines.len());
}

/// Rendering a window against a previous window with the same content
/// writes nothing, however often it is done.
pub proof fn law_render_of_shown_window_writes_nothing(
    new: DisplayWindow,
    prev: DisplayWindow,
    ops: Vec<RenderOp>,
)
    requires
        new@ == prev@,
        call_ensures(render, (&new, &prev), ops),
    ensures
        ops@.len() == 0,
{
    law_same_window_needs_no_paint(new@);
    assert(ops_view(ops@).len() == 0);
}

proof fn lemma_no_change_no_ops(w: WindowView, n: nat)
    requires
        n <= w.lines.len(),
    ensures
        plan_upto(w, w, n) == Seq::<OpView>::empty(),
    decreases n,
{
    if n > 0 {
        lemma_no_change_no_ops(w, (n - 1) as nat);
    }
}

/// The repaint does what it is for: carried out on a terminal that shows
/// `prev`, it leaves a terminal that shows `new`.
pub proof fn law_repaint_shows_new_window(new: WindowView, prev: WindowView)
    ensures
        apply_all(screen_of(prev), plan(new, prev)) == screen_of(new),
{
    let n = slots_used(new, prev);
    lemma_repaint_upto(new, prev, n);
    assert(apply_all(screen_of(prev), plan(new, prev)) =~= screen_of(new));
}

/// After the operations for the first `n` slots, those slots show `new` and
/// the rest still show `prev`.
proof fn lemma_repaint_upto(new: WindowView, prev: WindowView, n: nat)
    ensures
        apply_all(screen_of(prev), plan_upto(new, prev, n)) == Map::new(
            |slot: int|
                if slot < n {
                    0 <= slot < new.lines.len()
                } else {
                    0 <= slot < prev.lines.len()
                },
            |slot: int|
                if slot < n {
                    new.cell(slot)
                } else {
                    prev.cell(slot)
                },
        ),
    decreases n,
{
    let start = screen_of(prev);
    let target = Map::new(
        |slot: int|
            if slot < n {
                0 <= slot < new.lines.len()
            } else {
                0 <= slot < prev.lines.len()
            },
        |slot: int|
            if slot < n {
                new.cell(slot)
            } else {
                prev.cell(slot)
            },
    );
    if n == 0 {
        assert(apply_all(start, plan_upto(new, prev, n)) =~= target);
    } else {
        lemma_repaint_upto(new, prev, (n - 1) as nat);
        let above = plan_upto(new, prev, (n - 1) as nat);
        match slot_op(new, prev, n - 1) {
            Some(op) => {
                assert(above.push(op).drop_last() =~= above);
                assert(apply_all(start, above.push(op)) == apply(apply_all(start, above), op));
                assert(apply(apply_all(start, above), op) =~= target);
            },
            None => {
                assert(apply_all(start, above) =~= target);
            },
        }
    }
}

/// The repaint is minimal and complete. Its operations run down the screen,
/// so no slot is written twice; each is what its slot needs; and every slot
/// that needs an operation gets it.
pub proof fn law_one_op_per_changed_slot(new: WindowView, prev: WindowView)
    ensures
        forall|i: int, j: int|
            0 <= i < j < plan(new, prev).len() ==> plan(new, prev)[i].slot() < plan(
                new,
                prev,
            )[j].slot(),
        forall|i: int|
            0 <= i < plan(new, prev).len() ==> slot_op(
                new,
                prev,
                (#[trigger] plan(new, prev)[i]).slot() as int,
            ) == Some(plan(new, prev)[i]),
        forall|slot: int|
            (#[trigger] slot_op(new, prev, slot)) is Some ==> plan(new, prev).contains(
                slot_op(new, prev, slot)->0,
            ),
{
    let n = slots_used(new, prev);
    lemma_plan_upto_exact(new, prev, n);
    assert forall|slot: int| (#[trigger] slot_op(new, prev, slot)) is Some implies plan(
        new,
        prev,
    ).contains(slot_op(new, prev, slot)->0) by {
        assert(0 <= slot < n);
    }
}

proof fn lemma_plan_upto_exact(new: WindowView, prev: WindowView, n: nat)
    ensures
        forall|i: int|
            0 <= i < plan_upto(new, prev, n).len() ==> (#[trigger] plan_upto(
                new,
                prev,
                n,
            )[i]).slot() < n,
        forall|i: int, j: int|
            0 <= i < j < plan_upto(new, prev, n).len() ==> plan_upto(new, prev, n)[i].slot()
                < plan_upto(new, prev, n)[j].slot(),
        forall|i: int|
            0 <= i < plan_upto(new, prev, n).len() ==> slot_op(
                new,
                prev,
                (#[trigger] plan_upto(new, prev, n)[i]).slot() as int,
            ) == Some(plan_upto(new, prev, n)[i]),
        forall|slot: int|
            0 <= slot < n && (#[trigger] slot_op(new, prev, slot)) is Some ==> plan_upto(
                new,
                prev,
                n,
            ).contains(slot_op(new, prev, slot)->0),
    decreases n,
{
    if n > 0 {
        lemma_plan_upto_exact(new, prev, (n - 1) as nat);
        let above = plan_upto(new, prev, (n - 1) as nat);
        let all = plan_upto(new, prev, n);
        assert forall|slot: int|
            0 <= slot < n && (#[trigger] slot_op(new, prev, slot)) is Some implies all.contains(
            slot_op(new, prev, slot)->0,
        ) by {
            let op = slot_op(new, prev, slot)->0;
            if slot < n - 1 {
                assert(above.contains(op));
                let i = choose|i: int| 0 <= i < above.len() && above[i] == op;
                assert(all[i] == op);
            } else {
                assert(all[all.len() - 1] == op);
            }
        }
    }
}

/// Down the window the lines are painted no brighter: of two slots, the lower
/// one is no brighter than the upper one unless it is the marked line.
pub proof fn law_lower_lines_are_no_brighter(w: WindowView, upper: int, lower: int)
    requires
        0 <= upper <= lower < w.lines.len(),
        w.lines.len() <= usize::MAX,
        !w.marks(lower),
    ensures
        no_brighter(w.cell(lower).tone, w.cell(upper).tone),
{
    let span = span_of(w.lines.len()) as int;
    assert((depth_of(lower) + FIRST_ROW) * span >= (depth_of(upper) + FIRST_ROW) * span)
        by (nonlinear_arith)
        requires
            depth_of(lower) >= depth_of(upper),
            span >= 0,
    ;
}

/// The terminal row of a slot, or `None` where the terminal has no such row.
pub fn row_of(slot: usize) -> (row: Option<u16>)
    ensures
        slot + FIRST_ROW <= u16::MAX ==> row == Some((slot + FIRST_ROW) as u16),
        slot + FIRST_ROW > u16::MAX ==> row is None,
{
    if slot <= (u16::MAX - FIRST_ROW) as usize {
        Some(slot as u16 + FIRST_ROW)
    } else {
        None
    }
}

/// The number of lyric lines that a terminal of `rows` rows has room for: all
/// rows below the heading.
pub fn capacity_for(rows: u16) -> (capacity: usize)
    ensures
        rows >= FIRST_ROW ==> capacity == rows - FIRST_ROW,
        rows < FIRST_ROW ==> capacity == 0,
{
    if rows >= FIRST_ROW {
        (rows - FIRST_ROW) as usize
    } else {
        0
    }
}

impl DisplayWindow {
    /// Whether slot `slot` carries the marker.
    pub fn marks(&self, slot: usize) -> (marked: bool)
        ensures
            marked == self@.marks(slot as int),
    {
        self.marked && slot == self.active_index
    }

    /// The tone in which slot `slot` is painted.
    pub fn tone_at(&self, slot: usize) -> (tone: Tone)
        requires
            slot < self.lines@.len(),
        ensures
            tone == self@.cell(slot as int).tone,
    {
        if self.marks(slot) {
            Tone::Active
        } else {
            let len = self.lines.len();
            Tone::Dimmed {
                depth: if slot < 2 {
                    2
                } else {
                    slot
                },
                span: if len < 7 {
                    7
                } else {
                    len
                },
            }
        }
    }

    /// The text that slot `slot` shows: the line, behind the marker where the
    /// slot is marked.
    pub fn text_at(&self, slot: usize) -> (text: String)
        requires
            slot < self.lines@.len(),
        ensures
            text@ == self@.cell(slot as int).text,
    {
        let line = &self.lines[slot];
        if self.marks(slot) {
            proof {
                reveal_strlit("> ");
            }
            let text = String::from_str("> ").concat(line.text.as_str());
            assert(text@ =~= marker() + line.text@);
            text
        } else {
            line.text.clone()
        }
    }

    /// Whether slot `slot` shows the same in `self` as in `other`.
    pub fn same_cell(&self, other: &DisplayWindow, slot: usize) -> (same: bool)
        requires
            slot < self.lines@.len(),
            slot < other.lines@.len(),
        ensures
            same == (self@.cell(slot as int) == other@.cell(slot as int)),
    {
        let here = &self.lines[slot];
        let there = &other.lines[slot];
        let same = self.marks(slot) == other.marks(slot) && here.text == there.text
            && self.tone_at(slot) == other.tone_at(slot);
        proof {
            if self@.marks(slot as int) && other@.marks(slot as int) {
                // Two marked texts are equal only if the lines behind the
                // marker are.
                assert((marker() + here.text@).skip(2) =~= here.text@);
                assert((marker() + there.text@).skip(2) =~= there.text@);
            }
        }
        same
    }
}

/// Lists what has to be written so that a terminal which shows `prev_state`
/// shows `lines`: one write for each slot whose content differs, one clear for
/// each slot that `lines` no longer uses, from the top down, and nothing for
/// a slot that already shows what it should.
pub fn render(lines: &DisplayWindow, prev_state: &DisplayWindow) -> (ops: Vec<RenderOp>)
    ensures
        ops_view(ops@) == plan(lines@, prev_state@),
{
    let new_len = lines.lines.len();
    let prev_len = prev_state.lines.len();
    let used = if new_len >= prev_len {
        new_len
    } else {
        prev_len
    };
    let mut ops: Vec<RenderOp> = Vec::new();
    let mut slot: usize = 0;
    while slot < used
        invariant
            slot <= used,
            new_len == lines.lines@.len(),
            prev_len == prev_state.lines@.len(),
            used == slots_used(lines@, prev_state@),
            ops_view(ops@) == plan_upto(lines@, prev_state@, slot as nat),
        decreases used - slot,
    {
        let ghost before = ops_view(ops@);
        if slot < new_len {
            if !(slot < prev_len && lines.same_cell(prev_state, slot)) {
                ops.push(
                    RenderOp::Write { slot, text: lines.text_at(slot), tone: lines.tone_at(slot) },
                );
                assert(ops_view(ops@) =~= before.push(ops@.last()@));
            }
        } else {
            ops.push(RenderOp::Clear { slot });
            assert(ops_view(ops@) =~= before.push(ops@.last()@));
        }
        slot += 1;
    }
    ops
}

} // verus!
