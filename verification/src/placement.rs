//! Where the indicator sits on the screen: which screen, which corner or edge, how far from it.

use vstd::prelude::*;

use crate::lang::picked;
use crate::lang::t;
use crate::single::Single;
use crate::text::decimal;
use crate::text::number;
use crate::text::signed_decimal;
use crate::text::signed_number;

verus! {

#[derive(Clone, Copy, Debug, PartialEq, Eq, Structural)]
pub enum Anchor {
    TopLeft,
    TopCenter,
    TopRight,
    BottomLeft,
    BottomCenter,
    BottomRight,
}

impl Anchor {
    /// The places along the upper edge.
    pub fn top_row() -> (row: [Anchor; 3])
        ensures
            row@ == seq![Anchor::TopLeft, Anchor::TopCenter, Anchor::TopRight],
    {
        let row = [Anchor::TopLeft, Anchor::TopCenter, Anchor::TopRight];
        assert(row@ =~= seq![Anchor::TopLeft, Anchor::TopCenter, Anchor::TopRight]);
        row
    }

    /// The places along the lower edge.
    pub fn bottom_row() -> (row: [Anchor; 3])
        ensures
            row@ == seq![Anchor::BottomLeft, Anchor::BottomCenter, Anchor::BottomRight],
    {
        let row = [Anchor::BottomLeft, Anchor::BottomCenter, Anchor::BottomRight];
        assert(row@ =~= seq![Anchor::BottomLeft, Anchor::BottomCenter, Anchor::BottomRight]);
        row
    }

    pub fn label(self, code: u8) -> (r: &'static str)
        ensures
            r@ == (match self {
                Anchor::TopLeft => picked(code, "↖ Oben links"@, "↖ Top left"@),
                Anchor::TopCenter => picked(code, "↑ Oben Mitte"@, "↑ Top centre"@),
                Anchor::TopRight => picked(code, "↗ Oben rechts"@, "↗ Top right"@),
                Anchor::BottomLeft => picked(code, "↙ Unten links"@, "↙ Bottom left"@),
                Anchor::BottomCenter => picked(code, "↓ Unten Mitte"@, "↓ Bottom centre"@),
                Anchor::BottomRight => picked(code, "↘ Unten rechts"@, "↘ Bottom right"@),
            }),
    {
        match self {
            Anchor::TopLeft => t(code, "↖ Oben links", "↖ Top left"),
            Anchor::TopCenter => t(code, "↑ Oben Mitte", "↑ Top centre"),
            Anchor::TopRight => t(code, "↗ Oben rechts", "↗ Top right"),
            Anchor::BottomLeft => t(code, "↙ Unten links", "↙ Bottom left"),
            Anchor::BottomCenter => t(code, "↓ Unten Mitte", "↓ Bottom centre"),
            Anchor::BottomRight => t(code, "↘ Unten rechts", "↘ Bottom right"),
        }
    }

    pub open spec fn is_left(self) -> bool {
        self == Anchor::TopLeft || self == Anchor::BottomLeft
    }

    pub open spec fn is_center(self) -> bool {
        self == Anchor::TopCenter || self == Anchor::BottomCenter
    }

    pub open spec fn is_top(self) -> bool {
        self == Anchor::TopLeft || self == Anchor::TopCenter || self == Anchor::TopRight
    }
}

/// A screen.
#[derive(Clone, Copy, Debug)]
pub struct Monitor {
    /// Working area without the task bar in pixels: left, top, right, bottom.
    pub work: [i32; 4],
    /// How much Windows enlarges, 1 is 100 %.
    pub scale: Single,
    pub primary: bool,
}

pub open spec fn is_i32(n: int) -> bool {
    i32::MIN <= n <= i32::MAX
}

impl Monitor {
    /// What the list of screens says of this one, the `index`th in it.
    pub fn label(&self, index: usize, code: u8) -> (s: String)
        requires
            is_i32(self.work@[2] - self.work@[0]),
            is_i32(self.work@[3] - self.work@[1]),
            index < usize::MAX,
        ensures
            s@ == "Monitor "@ + decimal((index + 1) as nat) + " ("@ + signed_decimal(self.work@[2] - self.work@[0]) + "×"@
                + signed_decimal(self.work@[3] - self.work@[1]) + (if self.primary {
                picked(code, ", Hauptbildschirm"@, ", main screen"@)
            } else {
                Seq::empty()
            }) + ")"@,
    {
        let width: i32 = self.work[2] - self.work[0];
        let height: i32 = self.work[3] - self.work[1];
        let mut s = String::new();
        s.append("Monitor ");
        s.append(number((index + 1) as u64).as_str());
        s.append(" (");
        s.append(signed_number(width as i64).as_str());
        s.append("×");
        s.append(signed_number(height as i64).as_str());
        if self.primary {
            s.append(t(code, ", Hauptbildschirm", ", main screen"));
        }
        s.append(")");
        assert(s@ =~= "Monitor "@ + decimal((index + 1) as nat) + " ("@ + signed_decimal(width as int) + "×"@
            + signed_decimal(height as int) + (if self.primary {
            picked(code, ", Hauptbildschirm"@, ", main screen"@)
        } else {
            Seq::empty()
        }) + ")"@);
        s
    }
}

/// A rectangle in pixels.
#[derive(Clone, Copy, Debug, PartialEq, Eq, Structural)]
pub struct PhysicalRect {
    pub x: i32,
    pub y: i32,
    pub w: i32,
    pub h: i32,
}

/// How large the indicator is and how far from the edge, in the pixels of one screen.
#[derive(Clone, Copy, Debug, PartialEq, Eq, Structural)]
pub struct Extent {
    pub w: i32,
    pub h: i32,
    pub margin: i32,
}

/// Half of `n`, rounded towards zero.
pub open spec fn half(n: int) -> int {
    if n >= 0 {
        n / 2
    } else {
        -((-n) / 2)
    }
}

/// Where the left edge goes.
pub open spec fn left_edge(work: [i32; 4], anchor: Anchor, e: Extent) -> int {
    if anchor.is_left() {
        work@[0] + e.margin
    } else if anchor.is_center() {
        work@[0] + half(work@[2] - work@[0] - e.w)
    } else {
        work@[2] - e.margin - e.w
    }
}

/// Where the upper edge goes.
pub open spec fn upper_edge(work: [i32; 4], anchor: Anchor, e: Extent) -> int {
    if anchor.is_top() {
        work@[1] + e.margin
    } else {
        work@[3] - e.margin - e.h
    }
}

/// Nothing on the way to the place leaves the range of 32 bits.
pub open spec fn countable(work: [i32; 4], anchor: Anchor, e: Extent) -> bool {
    &&& is_i32(left_edge(work, anchor, e))
    &&& is_i32(upper_edge(work, anchor, e))
    &&& (anchor.is_center() ==> is_i32(work@[2] - work@[0]) && is_i32(work@[2] - work@[0] - e.w))
    &&& (!anchor.is_center() && !anchor.is_left() ==> is_i32(work@[2] - e.margin))
    &&& (!anchor.is_top() ==> is_i32(work@[3] - e.margin))
}

fn is_left(anchor: Anchor) -> (r: bool)
    ensures
        r == anchor.is_left(),
{
    anchor == Anchor::TopLeft || anchor == Anchor::BottomLeft
}

fn is_center(anchor: Anchor) -> (r: bool)
    ensures
        r == anchor.is_center(),
{
    anchor == Anchor::TopCenter || anchor == Anchor::BottomCenter
}

fn is_top(anchor: Anchor) -> (r: bool)
    ensures
        r == anchor.is_top(),
{
    anchor == Anchor::TopLeft || anchor == Anchor::TopCenter || anchor == Anchor::TopRight
}

fn halved(n: i64) -> (r: i64)
    requires
        -0x2_0000_0000 <= n <= 0x2_0000_0000,
    ensures
        r == half(n as int),
{
    if n >= 0 {
        n / 2
    } else {
        -((-n) / 2)
    }
}

fn in_range(n: i64) -> (r: bool)
    ensures
        r == is_i32(n as int),
{
    i32::MIN as i64 <= n && n <= i32::MAX as i64
}

fn left(work: &[i32; 4], anchor: Anchor, e: Extent) -> (x: i64)
    ensures
        x == left_edge(*work, anchor, e),
{
    if is_left(anchor) {
        work[0] as i64 + e.margin as i64
    } else if is_center(anchor) {
        work[0] as i64 + halved(work[2] as i64 - work[0] as i64 - e.w as i64)
    } else {
        work[2] as i64 - e.margin as i64 - e.w as i64
    }
}

fn upper(work: &[i32; 4], anchor: Anchor, e: Extent) -> (y: i64)
    ensures
        y == upper_edge(*work, anchor, e),
{
    if is_top(anchor) {
        work[1] as i64 + e.margin as i64
    } else {
        work[3] as i64 - e.margin as i64 - e.h as i64
    }
}

/// Whether the place can be computed on this screen at all.
pub fn is_countable(monitor: &Monitor, anchor: Anchor, e: Extent) -> (r: bool)
    ensures
        r == countable(monitor.work, anchor, e),
{
    let work = &monitor.work;
    let width: i64 = work[2] as i64 - work[0] as i64;
    in_range(left(work, anchor, e)) && in_range(upper(work, anchor, e)) && (!is_center(anchor) || (in_range(width)
        && in_range(width - e.w as i64))) && (is_center(anchor) || is_left(anchor) || in_range(
        work[2] as i64 - e.margin as i64,
    )) && (is_top(anchor) || in_range(work[3] as i64 - e.margin as i64))
}

/// Which screen the indicator goes to: the chosen one, or the first if that is not connected.
pub open spec fn screen(count: nat, index: int) -> Option<int> {
    if index < count {
        Some(index)
    } else if count > 0 {
        Some(0)
    } else {
        None
    }
}

/// Which screen the indicator goes to.
pub fn shown_on(monitors: &Vec<Monitor>, index: usize) -> (r: Option<usize>)
    ensures
        (match r {
            Some(i) => screen(monitors@.len(), index as int) == Some(i as int) && i < monitors@.len(),
            None => screen(monitors@.len(), index as int) is None,
        }),
{
    if index < monitors.len() {
        Some(index)
    } else if monitors.len() > 0 {
        Some(0)
    } else {
        None
    }
}

/// The rectangle of the indicator on one screen.
pub open spec fn placed(work: [i32; 4], anchor: Anchor, e: Extent) -> PhysicalRect {
    PhysicalRect { x: left_edge(work, anchor, e) as i32, y: upper_edge(work, anchor, e) as i32, w: e.w, h: e.h }
}

/// Where the window goes. `extent` is in the pixels of the screen that `shown_on` names.
pub fn target_rect(monitors: &Vec<Monitor>, index: usize, anchor: Anchor, extent: Extent) -> (r: Option<PhysicalRect>)
    requires
        screen(monitors@.len(), index as int) matches Some(i) ==> countable(monitors@[i].work, anchor, extent),
    ensures
        r == (match screen(monitors@.len(), index as int) {
            Some(i) => Some(placed(monitors@[i].work, anchor, extent)),
            None => None::<PhysicalRect>,
        }),
{
    match shown_on(monitors, index) {
        Some(i) => {
            let work = &monitors[i].work;
            Some(PhysicalRect {
                x: left(work, anchor, extent) as i32,
                y: upper(work, anchor, extent) as i32,
                w: extent.w,
                h: extent.h,
            })
        },
        None => None,
    }
}

/// Where there is room for the indicator and its distance from the edge, it lies within the
/// working area, whatever the anchor.
pub proof fn law_stays_on_screen(work: [i32; 4], anchor: Anchor, e: Extent)
    requires
        0 <= e.margin,
        0 <= e.w,
        0 <= e.h,
        e.margin + e.w <= work@[2] - work@[0],
        e.margin + e.h <= work@[3] - work@[1],
        countable(work, anchor, e),
    ensures
        work@[0] <= placed(work, anchor, e).x,
        placed(work, anchor, e).x + e.w <= work@[2],
        work@[1] <= placed(work, anchor, e).y,
        placed(work, anchor, e).y + e.h <= work@[3],
{
}

/// The main screen first, the rest from left to right, then from top to bottom.
pub open spec fn before_or_same(a: Monitor, b: Monitor) -> bool {
    if a.primary != b.primary {
        a.primary
    } else if a.work@[0] != b.work@[0] {
        a.work@[0] < b.work@[0]
    } else {
        a.work@[1] <= b.work@[1]
    }
}

fn not_after(a: &Monitor, b: &Monitor) -> (r: bool)
    ensures
        r == before_or_same(*a, *b),
{
    if a.primary != b.primary {
        a.primary
    } else if a.work[0] != b.work[0] {
        a.work[0] < b.work[0]
    } else {
        a.work[1] <= b.work[1]
    }
}

/// In the order of the list of screens.
pub open spec fn in_order(list: Seq<Monitor>) -> bool {
    forall|i: int, j: int| 0 <= i <= j < list.len() ==> before_or_same(#[trigger] list[i], #[trigger] list[j])
}

/// Screens that the order does not tell apart.
pub open spec fn tied(a: Monitor, b: Monitor) -> bool {
    before_or_same(a, b) && before_or_same(b, a)
}

/// The screens in `list` that are tied with `m`, in the order in which they stand there.
pub open spec fn ties(list: Seq<Monitor>, m: Monitor) -> Seq<Monitor> {
    list.filter(|x: Monitor| tied(x, m))
}

proof fn lemma_filter_insert(list: Seq<Monitor>, at: int, m: Monitor, p: spec_fn(Monitor) -> bool)
    requires
        0 <= at <= list.len(),
    ensures
        list.insert(at, m).filter(p) == list.take(at).filter(p) + (if p(m) {
            seq![m]
        } else {
            Seq::empty()
        }) + list.skip(at).filter(p),
        list.filter(p) == list.take(at).filter(p) + list.skip(at).filter(p),
{
    let one = seq![m];
    assert(list.insert(at, m) =~= list.take(at) + one + list.skip(at));
    assert(list =~= list.take(at) + list.skip(at));
    Seq::filter_distributes_over_add(list.take(at), list.skip(at), p);
    Seq::filter_distributes_over_add(list.take(at) + one, list.skip(at), p);
    Seq::filter_distributes_over_add(list.take(at), one, p);
    assert(one.filter(p) =~= if p(m) {
        seq![m]
    } else {
        Seq::empty()
    }) by {
        reveal_with_fuel(Seq::filter, 2);
        assert(one.drop_last() =~= Seq::empty());
    }
}

proof fn lemma_no_ties(list: Seq<Monitor>, m: Monitor)
    requires
        forall|i: int| 0 <= i < list.len() ==> !tied(#[trigger] list[i], m),
    ensures
        ties(list, m) == Seq::<Monitor>::empty(),
    decreases list.len(),
{
    reveal(Seq::filter);
    if list.len() > 0 {
        lemma_no_ties(list.drop_last(), m);
    }
}

/// Puts the screens in order. Those that the order does not tell apart keep theirs.
pub fn sorted(list: Vec<Monitor>) -> (r: Vec<Monitor>)
    ensures
        in_order(r@),
        r@.to_multiset() == list@.to_multiset(),
        forall|m: Monitor| #[trigger] ties(r@, m) == ties(list@, m),
{
    let mut r: Vec<Monitor> = Vec::new();
    let mut n: usize = 0;
    assert(list@.take(0) =~= r@);
    while n < list.len()
        invariant
            n <= list@.len(),
            r@.len() == n,
            in_order(r@),
            r@.to_multiset() == list@.take(n as int).to_multiset(),
            forall|m: Monitor| #[trigger] ties(r@, m) == ties(list@.take(n as int), m),
        decreases list@.len() - n,
    {
        let next = list[n];
        let mut at: usize = n;
        while at > 0 && !not_after(&r[at - 1], &next)
            invariant
                at <= n,
                r@.len() == n,
                forall|i: int| at <= i < n ==> !before_or_same(#[trigger] r@[i], next),
            decreases at,
        {
            at = at - 1;
        }
        let ghost before = r@;
        r.insert(at, next);
        proof {
            let done = list@.take(n as int);
            let more = list@.take(n + 1);
            assert(more =~= done.push(next));
            assert(r@ =~= before.insert(at as int, next));
            broadcast use vstd::seq_lib::group_to_multiset_ensures;

            assert(r@.to_multiset() =~= before.to_multiset().insert(next));
            assert(more.to_multiset() =~= done.to_multiset().insert(next));
            assert forall|m: Monitor| #[trigger] ties(r@, m) == ties(more, m) by {
                let p = |x: Monitor| tied(x, m);
                lemma_filter_insert(before, at as int, next, p);
                assert(more =~= done.insert(done.len() as int, next));
                lemma_filter_insert(done, done.len() as int, next, p);
                assert(done.skip(done.len() as int) =~= Seq::empty());
                assert(done.take(done.len() as int) =~= done);
                assert(Seq::<Monitor>::empty().filter(p) =~= Seq::empty()) by {
                    reveal(Seq::filter);
                }
                assert(ties(before, m) == ties(done, m));
                if tied(next, m) {
                    let tail = before.skip(at as int);
                    assert forall|i: int| 0 <= i < tail.len() implies !tied(#[trigger] tail[i], m) by {
                        assert(tail[i] == before[at + i]);
                        assert(!before_or_same(before[at + i], next));
                    }
                    lemma_no_ties(tail, m);
                }
                assert(ties(r@, m) =~= ties(more, m));
            }
        }
        n = n + 1;
    }
    assert(list@.take(n as int) =~= list@);
    r
}

/// The indicator lies at its corner or in the middle of its edge, its distance away from it: on the
/// chosen screen, or on the first one where that is not connected.
pub proof fn law_indicator_lies_at_its_anchor(
    monitors: &Vec<Monitor>,
    index: usize,
    anchor: Anchor,
    e: Extent,
    r: Option<PhysicalRect>,
)
    requires
        call_ensures(target_rect, (monitors, index, anchor, e), r),
        monitors@.len() > 0 ==> countable(
            monitors@[if index < monitors@.len() {
                index as int
            } else {
                0
            }].work,
            anchor,
            e,
        ),
    ensures
        r is None <==> monitors@.len() == 0,
        r matches Some(rect) ==> {
            let work = monitors@[if index < monitors@.len() {
                index as int
            } else {
                0
            }].work@;
            let left = anchor == Anchor::TopLeft || anchor == Anchor::BottomLeft;
            let right = anchor == Anchor::TopRight || anchor == Anchor::BottomRight;
            let top = anchor == Anchor::TopLeft || anchor == Anchor::TopCenter || anchor == Anchor::TopRight;
            let free_left = rect.x - work[0];
            let free_right = work[2] - (rect.x + rect.w);
            &&& rect.w == e.w && rect.h == e.h
            &&& left ==> free_left == e.margin
            &&& right ==> free_right == e.margin
            &&& !left && !right ==> -1 <= free_left - free_right <= 1
            &&& top ==> rect.y - work[1] == e.margin
            &&& !top ==> work[3] - (rect.y + rect.h) == e.margin
        },
{
}

/// In the list of screens the main one comes first; after that one further left comes before one
/// further right, and of two equally far left the upper one; no screen is lost.
pub proof fn law_screens_are_in_order(list: Vec<Monitor>, r: Vec<Monitor>, i: int, j: int)
    requires
        call_ensures(sorted, (list,), r),
        0 <= i < j < r@.len(),
    ensures
        r@[j].primary ==> r@[i].primary,
        r@[i].primary == r@[j].primary ==> r@[i].work@[0] <= r@[j].work@[0],
        r@[i].primary == r@[j].primary && r@[i].work@[0] == r@[j].work@[0] ==> r@[i].work@[1] <= r@[j].work@[1],
        r@.to_multiset() == list@.to_multiset(),
{
    assert(before_or_same(r@[i], r@[j]));
}

/// The indicator is shown on the chosen screen, on the first one where that is not connected, and
/// nowhere without any.
pub proof fn law_which_screen(monitors: &Vec<Monitor>, index: usize, r: Option<usize>)
    requires
        call_ensures(shown_on, (monitors, index), r),
    ensures
        index < monitors@.len() ==> r == Some(index),
        index >= monitors@.len() && monitors@.len() > 0 ==> r == Some(0usize),
        monitors@.len() == 0 ==> r is None,
{
}

} // verus!
