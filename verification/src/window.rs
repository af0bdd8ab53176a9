//! Which lines are on display at a given playback time.
//!
//! The lines that have started before the current time form a prefix of the
//! lyrics; the last of them is the active line. The window shows one line of
//! trailing context, the active line, and as many upcoming lines as fit.

use vstd::prelude::*;
use crate::structs::{starts_ascend, Lyrics};

verus! {

/// What to do with the marker while no line has started yet.
#[derive(Clone, Copy, Debug, PartialEq, Eq, Structural)]
pub enum LeadIn {
    /// The first upcoming line is marked as if it were active.
    MarkUpcoming,
    /// Nothing is marked until the first line has started.
    Plain,
}

/// One line of a window: its text and its start time.
#[derive(Clone, Debug, PartialEq, Eq)]
pub struct WindowLine {
    pub text: String,
    pub start: u64,
}

impl View for WindowLine {
    type V = (Seq<char>, nat);

    open spec fn view(&self) -> (Seq<char>, nat) {
        (self.text@, self.start as nat)
    }
}

/// The lines to show, top to bottom, and the slot that holds the active one.
#[derive(Clone, Debug, PartialEq, Eq)]
pub struct DisplayWindow {
    pub lines: Vec<WindowLine>,
    pub active_index: usize,
    /// Whether the slot `active_index` carries the marker.
    pub marked: bool,
}

/// The mathematical content of a [`DisplayWindow`].
pub struct WindowView {
    pub lines: Seq<(Seq<char>, nat)>,
    pub active_index: nat,
    pub marked: bool,
}

impl View for DisplayWindow {
    type V = WindowView;

    open spec fn view(&self) -> WindowView {
        WindowView {
            lines: Seq::new(self.lines@.len(), |i: int| self.lines@[i]@),
            active_index: self.active_index as nat,
            marked: self.marked,
        }
    }
}

/// The first index at or after `from` whose line has not started before `t`,
/// or the number of lines if there is none.
pub open spec fn cursor_from(cues: Seq<(Seq<char>, nat)>, t: nat, from: nat) -> nat
    decreases cues.len() - from,
{
    if from >= cues.len() || cues[from as int].1 >= t {
        from
    } else {
        cursor_from(cues, t, from + 1)
    }
}

/// How many lines at the front of `cues` have started before `t`. For lyrics in
/// ascending order this is the number of lines that have started before `t`,
/// the point at which `t` would be inserted.
pub open spec fn cursor(cues: Seq<(Seq<char>, nat)>, t: nat) -> nat {
    cursor_from(cues, t, 0)
}

/// `k` splits `cues` at time `t`: everything in front of `k` has started before
/// `t`, and the line at `k`, if there is one, has not.
pub open spec fn splits_at(cues: Seq<(Seq<char>, nat)>, t: nat, k: nat) -> bool {
    &&& k <= cues.len()
    &&& forall|j: int| 0 <= j < k ==> (#[trigger] cues[j]).1 < t
    &&& k < cues.len() ==> cues[k as int].1 >= t
}

/// The position in the lyrics of the active line at time `t`, if a line is
/// active: the last line of the started prefix.
pub open spec fn active_position(cues: Seq<(Seq<char>, nat)>, t: nat) -> Option<nat> {
    let k = cursor(cues, t);
    if k == 0 {
        None
    } else {
        Some((k - 1) as nat)
    }
}

/// The position in the lyrics of the top line of the window.
pub open spec fn window_first(k: nat) -> nat {
    if k > 1 {
        (k - 2) as nat
    } else {
        0
    }
}

/// One past the position in the lyrics of the bottom line of the window: up to
/// `capacity - 2` lines follow the active one.
pub open spec fn window_end(len: nat, k: nat, capacity: nat) -> nat {
    let upcoming: nat = if capacity >= 2 {
        (capacity - 2) as nat
    } else {
        0
    };
    if k + upcoming <= len {
        k + upcoming
    } else {
        len
    }
}

/// The window for lyrics `cues` at time `t` with room for `capacity` lines.
pub open spec fn window_at(
    cues: Seq<(Seq<char>, nat)>,
    t: nat,
    capacity: nat,
    lead_in: LeadIn,
) -> WindowView {
    let k = cursor(cues, t);
    WindowView {
        lines: cues.subrange(window_first(k) as int, window_end(cues.len(), k, capacity) as int),
        active_index: if k > 1 {
            1
        } else {
            0
        },
        marked: k > 0 || lead_in == LeadIn::MarkUpcoming,
    }
}

/// A split point is the cursor, and there is no other.
pub proof fn lemma_split_is_cursor(cues: Seq<(Seq<char>, nat)>, t: nat, k: nat)
    requires
        splits_at(cues, t, k),
    ensures
        cursor(cues, t) == k,
{
    lemma_cursor_from_reaches(cues, t, 0, k);
}

proof fn lemma_cursor_from_reaches(cues: Seq<(Seq<char>, nat)>, t: nat, from: nat, k: nat)
    requires
        splits_at(cues, t, k),
        from <= k,
    ensures
        cursor_from(cues, t, from) == k,
    decreases k - from,
{
    if from < k {
        assert(cues[from as int].1 < t);
        lemma_cursor_from_reaches(cues, t, from + 1, k);
    }
}

/// The cursor is a split point.
pub proof fn lemma_cursor_splits(cues: Seq<(Seq<char>, nat)>, t: nat)
    ensures
        splits_at(cues, t, cursor(cues, t)),
{
    lemma_cursor_from_splits(cues, t, 0);
}

proof fn lemma_cursor_from_splits(cues: Seq<(Seq<char>, nat)>, t: nat, from: nat)
    requires
        from <= cues.len(),
        forall|j: int| 0 <= j < from ==> (#[trigger] cues[j]).1 < t,
    ensures
        splits_at(cues, t, cursor_from(cues, t, from)),
    decreases cues.len() - from,
{
    if from < cues.len() && cues[from as int].1 < t {
        lemma_cursor_from_splits(cues, t, from + 1);
    }
}

/// How many lines of `cues` have started before `t`, wherever they stand.
pub open spec fn started_count(cues: Seq<(Seq<char>, nat)>, t: nat) -> nat
    decreases cues.len(),
{
    if cues.len() == 0 {
        0
    } else {
        started_count(cues.drop_last(), t) + if cues.last().1 < t {
            1nat
        } else {
            0nat
        }
    }
}

/// For lyrics in ascending order the cursor is the number of lines that have
/// started before `t`.
pub proof fn law_cursor_counts_started(cues: Seq<(Seq<char>, nat)>, t: nat)
    requires
        starts_ascend(cues),
    ensures
        cursor(cues, t) == started_count(cues, t),
    decreases cues.len(),
{
    if cues.len() > 0 {
        let front = cues.drop_last();
        let k = started_count(front, t);
        assert forall|i: int, j: int| 0 <= i <= j < front.len() implies front[i].1 <= front[j].1 by {
            assert(front[i] == cues[i] && front[j] == cues[j]);
        }
        law_cursor_counts_started(front, t);
        lemma_cursor_splits(front, t);
        assert forall|j: int| 0 <= j < k implies (#[trigger] cues[j]).1 < t by {
            assert(front[j] == cues[j]);
        }
        if cues.last().1 < t {
            if k < front.len() {
                assert(front[k as int] == cues[k as int]);
                assert(cues[k as int].1 <= cues[cues.len() - 1].1);
            }
            lemma_split_is_cursor(cues, t, k + 1);
        } else {
            if k < front.len() {
                assert(front[k as int] == cues[k as int]);
            }
            lemma_split_is_cursor(cues, t, k);
        }
    }
}

/// Selecting a window is a function of the lyrics, the time, the capacity and
/// the lead-in convention: two results for the same inputs hold the same
/// window.
pub proof fn law_update_is_pure(
    ly: Lyrics,
    time: u64,
    lines: usize,
    lead_in: LeadIn,
    first: DisplayWindow,
    second: DisplayWindow,
)
    requires
        call_ensures(update, (&ly, time, lines, lead_in), first),
        call_ensures(update, (&ly, time, lines, lead_in), second),
    ensures
        first@ == second@,
{
}

/// As time moves forward the cursor never moves back, and so neither does the
/// active line.
pub proof fn law_active_line_never_moves_back(
    cues: Seq<(Seq<char>, nat)>,
    sooner: nat,
    later: nat,
)
    requires
        sooner <= later,
    ensures
        cursor(cues, sooner) <= cursor(cues, later),
        active_position(cues, sooner) matches Some(before) ==> (active_position(
            cues,
            later,
        ) matches Some(after) && before <= after),
{
    lemma_cursor_splits(cues, sooner);
    lemma_cursor_splits(cues, later);
    let cut_sooner = cursor(cues, sooner);
    let cut_later = cursor(cues, later);
    if cut_later < cut_sooner {
        assert(cues[cut_later as int].1 < sooner);
    }
}

/// Whenever a line is active, the slot `active_index` of the window holds it
/// and is marked.
pub proof fn law_active_slot_holds_active_line(
    cues: Seq<(Seq<char>, nat)>,
    t: nat,
    capacity: nat,
    lead_in: LeadIn,
)
    ensures
        active_position(cues, t) matches Some(p) ==> {
            let w = window_at(cues, t, capacity, lead_in);
            &&& w.marked
            &&& w.active_index < w.lines.len()
            &&& w.lines[w.active_index as int] == cues[p as int]
        },
{
    lemma_cursor_splits(cues, t);
}

/// Until the first line has started no line is active: the window opens with
/// the first upcoming line in slot 0, marked only under
/// [`LeadIn::MarkUpcoming`].
pub proof fn law_no_active_line_before_first(
    cues: Seq<(Seq<char>, nat)>,
    t: nat,
    capacity: nat,
    lead_in: LeadIn,
)
    requires
        cues.len() > 0 ==> t <= cues[0].1,
    ensures
        active_position(cues, t) is None,
        window_at(cues, t, capacity, lead_in).active_index == 0,
        window_at(cues, t, capacity, lead_in).marked == (lead_in == LeadIn::MarkUpcoming),
        window_at(cues, t, capacity, lead_in).lines == cues.subrange(
            0,
            window_end(cues.len(), 0, capacity) as int,
        ),
{
    lemma_split_is_cursor(cues, t, 0);
}

/// Once the time has passed the start of the last line of ascending lyrics,
/// that line is active and closes the window: nothing is shown below it.
pub proof fn law_last_line_closes_window(
    cues: Seq<(Seq<char>, nat)>,
    t: nat,
    capacity: nat,
    lead_in: LeadIn,
)
    requires
        starts_ascend(cues),
        cues.len() > 0,
        t > cues.last().1,
    ensures
        active_position(cues, t) == Some((cues.len() - 1) as nat),
        ({
            let w = window_at(cues, t, capacity, lead_in);
            &&& w.marked
            &&& w.lines.len() == w.active_index + 1
            &&& w.lines.last() == cues.last()
        }),
{
    assert forall|j: int| 0 <= j < cues.len() implies (#[trigger] cues[j]).1 < t by {
        assert(cues[j].1 <= cues[cues.len() - 1].1);
    }
    lemma_split_is_cursor(cues, t, cues.len());
}

/// A window never holds more lines than the capacity, or than two where the
/// capacity is smaller, and lyrics without lines give an empty window.
pub proof fn law_window_fits(cues: Seq<(Seq<char>, nat)>, t: nat, capacity: nat, lead_in: LeadIn)
    ensures
        window_at(cues, t, capacity, lead_in).lines.len() <= if capacity >= 2 {
            capacity
        } else {
            2
        },
        window_at(cues, t, capacity, lead_in).lines.len() <= cues.len(),
{
    lemma_cursor_splits(cues, t);
}

impl Lyrics {
    /// Counts the lines at the front that have started before `time`.
    pub fn cursor_at(&self, time: u64) -> (k: usize)
        ensures
            k == cursor(self.cues(), time as nat),
            splits_at(self.cues(), time as nat, k as nat),
    {
        let mut k: usize = 0;
        while k < self.lines.len() && self.lines[k].start < time
            invariant
                k <= self.lines.len(),
                forall|j: int| 0 <= j < k ==> (#[trigger] self.cues()[j]).1 < time,
            decreases self.lines.len() - k,
        {
            k += 1;
        }
        proof {
            lemma_split_is_cursor(self.cues(), time as nat, k as nat);
        }
        k
    }
}

/// Chooses the lines to show at `time` when `lines` rows are available.
///
/// The window runs from one line before the active line to `lines - 2` lines
/// after it, cut off at both ends of the lyrics. The active line sits in slot 1
/// when a line precedes it, else in slot 0. While no line has started, slot 0
/// holds the first upcoming line and `lead_in` decides whether it is marked.
pub fn update(ly: &Lyrics, time: u64, lines: usize, lead_in: LeadIn) -> (w: DisplayWindow)
    ensures
        w@ == window_at(ly.cues(), time as nat, lines as nat, lead_in),
{
    let k = ly.cursor_at(time);
    let len = ly.lines.len();
    let first: usize = if k > 1 {
        k - 2
    } else {
        0
    };
    let upcoming: usize = if lines >= 2 {
        lines - 2
    } else {
        0
    };
    let end: usize = if upcoming <= len - k {
        k + upcoming
    } else {
        len
    };
    let mut shown: Vec<WindowLine> = Vec::new();
    let mut next: usize = first;
    while next < end
        invariant
            first <= next <= end <= len,
            len == ly.lines@.len(),
            shown@.len() == next - first,
            forall|j: int| 0 <= j < shown@.len() ==> (#[trigger] shown@[j])@ == ly.cues()[first + j],
        decreases end - next,
    {
        let line = &ly.lines[next];
        shown.push(WindowLine { text: line.line.clone(), start: line.start });
        next += 1;
    }
    let w = DisplayWindow {
        lines: shown,
        active_index: if k > 1 {
            1
        } else {
            0
        },
        marked: k > 0 || matches!(lead_in, LeadIn::MarkUpcoming),
    };
    assert(w@.lines =~= ly.cues().subrange(first as int, end as int));
    w
}

} // verus!
