//! The controls of the channel strip: knob, fader, level meter, buttons. What a movement of the
//! mouse does to a value, and what is shown how.

use vstd::arithmetic::power2::pow2;
use vstd::prelude::*;

use crate::lang::picked;
use crate::lang::t;
use crate::single::lemma_quarters_order;
use crate::single::whole_of;
use crate::single::Single;

verus! {

/// The meter goes from -100 to 0 dB.
pub const METER_MIN: i32 = -100;

/// The limiter goes down to -40 dB; at 0 dB it is off.
pub const LIMIT_MIN: i32 = -40;

/// Segments of the meter.
pub const SEGMENTS: usize = 40;

/// The largest number.
pub const LARGEST_BITS: u32 = 0x7f7f_ffff;

/// The distance from zero.
pub open spec fn distance(x: Single) -> Single {
    Single { bits: x.magnitude() as u32 }
}

/// The value to go on from: the one before rounding as it was kept, `off` by no more than a
/// step from the value, else the value itself.
pub open spec fn unrounded(kept: Option<Single>, off: Single, step: Single, value: Single) -> Single {
    match kept {
        Some(raw) if distance(off).at_most(step) => raw,
        _ => value,
    }
}

/// The value to go on from. Small movements would get lost in rounding otherwise.
pub fn start_from(kept: Option<Single>, off: Single, step: Single, value: Single) -> (raw: Single)
    ensures
        raw == unrounded(kept, off, step, value),
{
    match kept {
        Some(raw) => {
            if off.abs().le(step) {
                raw
            } else {
                value
            }
        },
        None => value,
    }
}

/// Whether the wheel counts. Windows sends it to the window under the pointer even while one
/// scrolls elsewhere; only a window in front may react.
pub fn wheel_counts(hovered: bool, focused: bool) -> (r: bool)
    ensures
        r == (hovered && focused),
{
    hovered && focused
}

/// After the movement: a double click goes back to `home`, and everything stays within its
/// bounds.
pub fn turn(raw: Single, double_clicked: bool, home: Single, min: Single, max: Single) -> (r: Single)
    requires
        min.at_most(max),
    ensures
        r == (if double_clicked {
            home
        } else {
            raw
        }).limited(min, max),
{
    let moved = if double_clicked {
        home
    } else {
        raw
    };
    moved.clamp(min, max)
}

/// The value for a rounded one: within its bounds, and zero without a sign.
pub fn land(rounded: Single, min: Single, max: Single) -> (r: Single)
    requires
        min.at_most(max),
    ensures
        r == rounded.limited(min, max).plain(),
{
    rounded.clamp(min, max).plus_zero()
}

/// Takes over a new value. Says whether it is another one.
pub fn take_over(value: &mut Single, new: Single) -> (changed: bool)
    ensures
        changed == !new.equal(*old(value)),
        *final(value) == if changed {
            new
        } else {
            *old(value)
        },
{
    if new.same(*value) {
        false
    } else {
        *value = new;
        true
    }
}

/// A knob keeps within its bounds whatever the mouse does.
pub proof fn law_knob_stays_in_bounds(rounded: Single, min: Single, max: Single)
    requires
        min.at_most(max),
        !rounded.nan(),
    ensures
        min.at_most(rounded.limited(min, max).plain()),
        rounded.limited(min, max).plain().at_most(max),
{
    reveal(Single::val);
    let x = rounded.limited(min, max);
    assert(x.plain().val() == x.val());
}

/// What a knob shows: "off" at its left end, up to `off_below`, else `shown`.
pub fn knob_text(value: Single, off_below: Single, shown: &str, code: u8) -> (s: String)
    ensures
        s@ == if value.at_most(off_below) {
            picked(code, "aus"@, "off"@)
        } else {
            shown@
        },
{
    if value.le(off_below) {
        t(code, "aus", "off").to_string()
    } else {
        shown.to_string()
    }
}

/// A line in the meter that can be dragged.
#[derive(Clone, Copy, Debug, PartialEq, Eq, Structural)]
pub enum MeterLine {
    Yellow,
    Red,
    Limit,
}

/// The line nearest to the pointer, by the distances to all of them. In the gutter, where the
/// arrows are, the limiter is out of reach.
pub open spec fn nearest(in_gutter: bool, yellow: Single, red: Single, limit: Single) -> MeterLine {
    let first = if in_gutter {
        Single { bits: LARGEST_BITS }
    } else {
        limit
    };
    let second = if yellow.less(first) {
        yellow
    } else {
        first
    };
    if red.less(second) {
        MeterLine::Red
    } else if yellow.less(first) {
        MeterLine::Yellow
    } else {
        MeterLine::Limit
    }
}

/// The line nearest to the pointer.
pub fn line_at(in_gutter: bool, yellow: Single, red: Single, limit: Single) -> (line: MeterLine)
    ensures
        line == nearest(in_gutter, yellow, red, limit),
{
    let mut best = MeterLine::Limit;
    let mut so_far = if in_gutter {
        Single { bits: LARGEST_BITS }
    } else {
        limit
    };
    if yellow.lt(so_far) {
        best = MeterLine::Yellow;
        so_far = yellow;
    }
    if red.lt(so_far) {
        best = MeterLine::Red;
    }
    best
}

/// The line that is taken is the nearest one.
pub proof fn law_nearest_line_is_taken(yellow: Single, red: Single, limit: Single)
    requires
        !yellow.nan(),
        !red.nan(),
        !limit.nan(),
    ensures
        (match nearest(false, yellow, red, limit) {
            MeterLine::Yellow => yellow.at_most(red) && yellow.at_most(limit),
            MeterLine::Red => red.at_most(yellow) && red.at_most(limit),
            MeterLine::Limit => limit.at_most(yellow) && limit.at_most(red),
        }),
{
}

/// In the gutter only yellow and red can be taken, as long as the pointer is not infinitely far.
pub proof fn law_gutter_is_for_arrows(yellow: Single, red: Single, limit: Single)
    requires
        yellow.less(Single { bits: LARGEST_BITS }) || red.less(Single { bits: LARGEST_BITS }),
    ensures
        nearest(true, yellow, red, limit) != MeterLine::Limit,
{
}

/// The number under which a line is remembered while it is dragged.
pub open spec fn code_for(line: Option<MeterLine>) -> u8 {
    match line {
        Some(MeterLine::Yellow) => 0,
        Some(MeterLine::Red) => 1,
        Some(MeterLine::Limit) => 2,
        None => 3,
    }
}

pub fn drag_code(line: Option<MeterLine>) -> (code: u8)
    ensures
        code == code_for(line),
{
    match line {
        Some(MeterLine::Yellow) => 0,
        Some(MeterLine::Red) => 1,
        Some(MeterLine::Limit) => 2,
        None => 3,
    }
}

/// The line behind a number.
pub open spec fn line_for(code: u8) -> Option<MeterLine> {
    if code == 0 {
        Some(MeterLine::Yellow)
    } else if code == 1 {
        Some(MeterLine::Red)
    } else if code == 2 {
        Some(MeterLine::Limit)
    } else {
        None
    }
}

/// The line that is being dragged or hovered. While dragging it is the one that the drag began
/// with, wherever the pointer is now.
pub fn active_line(dragged: bool, remembered: Option<u8>, hovered: Option<MeterLine>) -> (line: Option<MeterLine>)
    ensures
        line == if dragged {
            (match remembered {
                Some(code) => line_for(code),
                None => None::<MeterLine>,
            })
        } else {
            hovered
        },
{
    if !dragged {
        return hovered;
    }
    match remembered {
        Some(0) => Some(MeterLine::Yellow),
        Some(1) => Some(MeterLine::Red),
        Some(2) => Some(MeterLine::Limit),
        _ => None,
    }
}

/// A remembered line is found again.
pub proof fn law_drag_keeps_its_line(line: Option<MeterLine>)
    ensures
        line_for(code_for(line)) == line,
{
}

/// The thresholds that can be dragged.
#[derive(Clone, Copy, Debug, PartialEq, Eq, Structural)]
pub struct Lines {
    pub yellow: Single,
    pub red: Single,
    pub limit: Single,
}

impl Lines {
    /// There is room for a line to be dragged in: for yellow from the end of the meter up to red,
    /// for red from yellow up to the other end.
    pub open spec fn draggable(self, line: Option<MeterLine>, pointer: Option<Single>) -> bool {
        match (line, pointer) {
            (Some(MeterLine::Yellow), Some(_)) => whole_of(METER_MIN as int).at_most(self.red),
            (Some(MeterLine::Red), Some(_)) => self.yellow.at_most(whole_of(0)),
            _ => true,
        }
    }

    /// Whether there is room for a line to be dragged in.
    pub fn can_drag(&self, line: Option<MeterLine>, pointer: Option<Single>) -> (r: bool)
        ensures
            r == self.draggable(line, pointer),
    {
        match (line, pointer) {
            (Some(MeterLine::Yellow), Some(_)) => Single::whole(METER_MIN).le(self.red),
            (Some(MeterLine::Red), Some(_)) => self.yellow.le(Single::whole(0)),
            _ => true,
        }
    }

    /// The lines after a movement. `pointer` is the level under the pointer while dragging and
    /// `limit` the one of the limiter, both rounded.
    pub open spec fn dragged(self, line: Option<MeterLine>, pointer: Option<Single>, limit: Single, double_clicked: bool) -> Lines {
        match (line, pointer) {
            (Some(MeterLine::Limit), _) => {
                let new = if double_clicked {
                    whole_of(0)
                } else {
                    match pointer {
                        Some(db) => db,
                        None => limit,
                    }
                };
                Lines { limit: new.limited(whole_of(LIMIT_MIN as int), whole_of(0)).plain(), ..self }
            },
            (Some(MeterLine::Yellow), Some(db)) => Lines {
                yellow: db.limited(whole_of(METER_MIN as int), self.red).plain(),
                ..self
            },
            (Some(MeterLine::Red), Some(db)) => Lines { red: db.limited(self.yellow, whole_of(0)).plain(), ..self },
            _ => self,
        }
    }

    /// Drags a line. Yellow stays below red and red above yellow; a double click on the limiter
    /// switches it off. Says whether anything changed.
    pub fn drag(&mut self, line: Option<MeterLine>, pointer: Option<Single>, limit: Single, double_clicked: bool) -> (changed: bool)
        requires
            old(self).draggable(line, pointer),
        ensures
            *final(self) == old(self).dragged(line, pointer, limit, double_clicked),
            changed == (match line {
                Some(MeterLine::Limit) => !final(self).limit.equal(old(self).limit),
                Some(MeterLine::Yellow) => pointer is Some && !final(self).yellow.equal(old(self).yellow),
                Some(MeterLine::Red) => pointer is Some && !final(self).red.equal(old(self).red),
                None => false,
            }),
    {
        let zero = Single::whole(0);
        match (line, pointer) {
            (Some(MeterLine::Limit), _) => {
                let lowest = Single::whole(LIMIT_MIN);
                proof {
                    lemma_quarters_order(lowest, -160, zero, 0);
                }
                let new = if double_clicked {
                    zero
                } else {
                    match pointer {
                        Some(db) => db,
                        None => limit,
                    }
                };
                let new = new.clamp(lowest, zero).plus_zero();
                let changed = !new.same(self.limit);
                self.limit = new;
                changed
            },
            (Some(MeterLine::Yellow), Some(db)) => {
                let new = db.clamp(Single::whole(METER_MIN), self.red).plus_zero();
                let changed = !new.same(self.yellow);
                self.yellow = new;
                changed
            },
            (Some(MeterLine::Red), Some(db)) => {
                let new = db.clamp(self.yellow, zero).plus_zero();
                let changed = !new.same(self.red);
                self.red = new;
                changed
            },
            _ => false,
        }
    }
}

/// Yellow never gets above red, whatever is dragged where.
pub proof fn law_yellow_stays_below_red(l: Lines, line: Option<MeterLine>, pointer: Option<Single>, limit: Single, double_clicked: bool)
    requires
        l.draggable(line, pointer),
        l.yellow.at_most(l.red),
        pointer matches Some(db) ==> !db.nan(),
    ensures
        ({
            let after = l.dragged(line, pointer, limit, double_clicked);
            after.yellow.at_most(after.red)
        }),
{
    let after = l.dragged(line, pointer, limit, double_clicked);
    reveal(Single::val);
    assert(after.yellow.plain().val() == after.yellow.val());
    assert(after.red.plain().val() == after.red.val());
}

/// The limiter stays between -40 and 0 dB.
pub proof fn law_limiter_stays_in_bounds(l: Lines, pointer: Option<Single>, limit: Single, double_clicked: bool)
    requires
        pointer matches Some(db) ==> !db.nan(),
        !limit.nan(),
    ensures
        ({
            let after = l.dragged(Some(MeterLine::Limit), pointer, limit, double_clicked);
            whole_of(LIMIT_MIN as int).at_most(after.limit) && after.limit.at_most(whole_of(0))
        }),
{
    crate::single::lemma_quarters_of(0);
    crate::single::lemma_quarters_of(-160);
    lemma_quarters_order(whole_of(LIMIT_MIN as int), -160, whole_of(0), 0);
    let after = l.dragged(Some(MeterLine::Limit), pointer, limit, double_clicked);
    reveal(Single::val);
    assert(after.limit.plain().val() == after.limit.val());
}

/// The lines lie on the meter, yellow not above red, and the limiter within its bounds.
pub open spec fn in_order(l: Lines) -> bool {
    &&& whole_of(METER_MIN as int).at_most(l.yellow)
    &&& l.yellow.at_most(l.red)
    &&& l.red.at_most(whole_of(0))
    &&& whole_of(LIMIT_MIN as int).at_most(l.limit)
    &&& l.limit.at_most(whole_of(0))
}

/// Whatever is dragged where, the lines stay on the meter and in their order, and at most the one
/// line that is at work changes: yellow and red only while it is dragged, the limiter by a double
/// click too, which switches it off.
pub proof fn law_lines_stay_on_the_meter(l: Lines, line: Option<MeterLine>, pointer: Option<Single>, limit: Single, double_clicked: bool)
    requires
        in_order(l),
        pointer matches Some(db) ==> !db.nan(),
        !limit.nan(),
    ensures
        ({
            let after = l.dragged(line, pointer, limit, double_clicked);
            &&& l.draggable(line, pointer)
            &&& in_order(after)
            &&& line != Some(MeterLine::Yellow) || pointer is None ==> after.yellow == l.yellow
            &&& line != Some(MeterLine::Red) || pointer is None ==> after.red == l.red
            &&& line != Some(MeterLine::Limit) ==> after.limit == l.limit
            &&& line == Some(MeterLine::Limit) && double_clicked ==> after.limit == whole_of(0)
        }),
{
    crate::single::lemma_quarters_of(0);
    crate::single::lemma_quarters_of(-160);
    crate::single::lemma_quarters_of(-400);
    lemma_quarters_order(whole_of(LIMIT_MIN as int), -160, whole_of(0), 0);
    lemma_quarters_order(whole_of(METER_MIN as int), -400, whole_of(0), 0);
    let after = l.dragged(line, pointer, limit, double_clicked);
    reveal(Single::val);
    assert(after.yellow.plain().val() == after.yellow.val());
    assert(after.red.plain().val() == after.red.val());
    assert(after.limit.plain().val() == after.limit.val());
    assert(whole_of(0).plain() == whole_of(0));
}

/// The colour of a segment of the meter.
#[derive(Clone, Copy, Debug, PartialEq, Eq, Structural)]
pub enum Colour {
    Grey,
    Green,
    Yellow,
    Red,
}

/// The colour of the segment at a level: the same thresholds as on the screen, grey when muted.
pub fn segment_colour(db: Single, muted: bool, yellow: Single, red: Single) -> (c: Colour)
    ensures
        c == if muted {
            Colour::Grey
        } else if red.at_most(db) {
            Colour::Red
        } else if yellow.at_most(db) {
            Colour::Yellow
        } else {
            Colour::Green
        },
{
    if muted {
        Colour::Grey
    } else if red.le(db) {
        Colour::Red
    } else if yellow.le(db) {
        Colour::Yellow
    } else {
        Colour::Green
    }
}

/// Whether the segment at a level is lit.
pub fn segment_lit(db: Single, voice_db: Single) -> (r: bool)
    ensures
        r == db.at_most(voice_db),
{
    db.le(voice_db)
}

/// The limiter is on.
pub open spec fn limits(limit_db: Single) -> bool {
    limit_db.less(whole_of(0))
}

/// Whether the limiter is on.
pub fn limit_active(limit_db: Single) -> (r: bool)
    ensures
        r == limits(limit_db),
{
    limit_db.lt(Single::whole(0))
}

/// Whether the limiter is drawn: when it is on, or when it is being touched.
pub fn limit_shown(limit_db: Single, active: Option<MeterLine>) -> (r: bool)
    ensures
        r == (limits(limit_db) || active == Some(MeterLine::Limit)),
{
    if limit_active(limit_db) {
        return true;
    }
    match active {
        Some(MeterLine::Limit) => true,
        _ => false,
    }
}

/// The label of the limiter; `shown` is its level as text.
pub fn limit_label(limit_db: Single, shown: &str, code: u8) -> (s: String)
    ensures
        s@ == "Lim\n"@ + (if limits(limit_db) {
            shown@
        } else {
            picked(code, "aus"@, "off"@)
        }),
{
    let mut s = String::new();
    s.append("Lim\n");
    if limit_active(limit_db) {
        s.append(shown);
    } else {
        s.append(t(code, "aus", "off"));
    }
    s
}

/// Where a threshold begins, and how to change it.
pub open spec fn threshold_hint(what: Seq<char>, db: Seq<char>, code: u8) -> Seq<char> {
    what + " "@ + db + " dB · "@ + picked(code, "Pfeil ziehen"@, "drag the arrow"@)
}

fn add_threshold_hint(s: &mut String, what: &str, db: &str, code: u8)
    ensures
        final(s)@ == old(s)@ + threshold_hint(what@, db@, code),
{
    s.append(what);
    s.append(" ");
    s.append(db);
    s.append(" dB · ");
    s.append(t(code, "Pfeil ziehen", "drag the arrow"));
    assert(s@ =~= old(s)@ + threshold_hint(what@, db@, code));
}

/// What is said of the line under the pointer. `beeps` if red also beeps, `running` if there is
/// an output that the limiter can work on; the levels as text.
pub open spec fn line_hint(line: Option<MeterLine>, beeps: bool, running: bool, yellow: Seq<char>, red: Seq<char>, code: u8) -> Seq<char> {
    match line {
        Some(MeterLine::Yellow) => threshold_hint(picked(code, "Gelb ab"@, "Yellow from"@), yellow, code),
        Some(MeterLine::Red) => if beeps {
            threshold_hint(picked(code, "Rot und Warnton ab"@, "Red and beep from"@), red, code)
        } else {
            threshold_hint(picked(code, "Rot ab"@, "Red from"@), red, code)
        },
        Some(MeterLine::Limit) => if running {
            picked(
                code,
                "Limiter: Linie runterziehen, Doppelklick: aus."@,
                "Limiter: drag the line down, double-click: off."@,
            )
        } else {
            picked(
                code,
                "Limiter: wirkt erst mit einem Ausgang (VB-Cable). Doppelklick: aus."@,
                "Limiter: only works with an output (VB-Cable). Double-click: off."@,
            )
        },
        None => Seq::empty(),
    }
}

/// What is said when the meter is hovered: the level, and the line under the pointer.
pub fn meter_hint(line: Option<MeterLine>, beeps: bool, running: bool, level: &str, yellow: &str, red: &str, code: u8) -> (s: String)
    ensures
        s@ == picked(code, "Pegel"@, "Level"@) + " "@ + level@ + " dB\n"@ + line_hint(
            line,
            beeps,
            running,
            yellow@,
            red@,
            code,
        ),
{
    let mut s = String::new();
    s.append(t(code, "Pegel", "Level"));
    s.append(" ");
    s.append(level);
    s.append(" dB\n");
    let ghost begun = s@;
    assert(begun =~= picked(code, "Pegel"@, "Level"@) + " "@ + level@ + " dB\n"@);
    match line {
        Some(MeterLine::Yellow) => add_threshold_hint(&mut s, t(code, "Gelb ab", "Yellow from"), yellow, code),
        Some(MeterLine::Red) => {
            if beeps {
                add_threshold_hint(&mut s, t(code, "Rot und Warnton ab", "Red and beep from"), red, code)
            } else {
                add_threshold_hint(&mut s, t(code, "Rot ab", "Red from"), red, code)
            }
        },
        Some(MeterLine::Limit) => {
            if running {
                s.append(
                    t(
                        code,
                        "Limiter: Linie runterziehen, Doppelklick: aus.",
                        "Limiter: drag the line down, double-click: off.",
                    ),
                )
            } else {
                s.append(
                    t(
                        code,
                        "Limiter: wirkt erst mit einem Ausgang (VB-Cable). Doppelklick: aus.",
                        "Limiter: only works with an output (VB-Cable). Double-click: off.",
                    ),
                )
            }
        },
        None => {},
    }
    assert(s@ =~= begun + line_hint(line, beeps, running, yellow@, red@, code));
    s
}

/// A button that stays down.
pub fn toggle(on: &mut bool, clicked: bool)
    ensures
        *final(on) == (*old(on) != clicked),
{
    if clicked {
        *on = !*on;
    }
}

#[derive(Clone, Copy, Debug, PartialEq, Eq, Structural)]
pub enum TitleIcon {
    Gear,
    Minimize,
    Close,
}

/// What is behind a button of the title bar.
#[derive(Clone, Copy, Debug, PartialEq, Eq, Structural)]
pub enum Background {
    Nothing,
    Plain,
    Warning,
}

/// What is behind a button of the title bar: closing turns red under the pointer.
pub fn title_background(hovered: bool, icon: TitleIcon, selected: bool) -> (b: Background)
    ensures
        b == if hovered && icon == TitleIcon::Close {
            Background::Warning
        } else if hovered || selected {
            Background::Plain
        } else {
            Background::Nothing
        },
{
    if hovered && icon == TitleIcon::Close {
        Background::Warning
    } else if hovered || selected {
        Background::Plain
    } else {
        Background::Nothing
    }
}

/// A knob goes where it is turned: within its bounds exactly there, beyond them to the nearer end; a
/// double click takes it home.
pub proof fn law_knob_goes_where_it_is_turned(
    raw: Single,
    double_clicked: bool,
    home: Single,
    min: Single,
    max: Single,
    r: Single,
    landed: Single,
)
    requires
        min.at_most(max),
        call_ensures(turn, (raw, double_clicked, home, min, max), r),
        call_ensures(land, (raw, min, max), landed),
        !raw.nan(),
        !home.nan(),
    ensures
        ({
            let wanted = if double_clicked {
                home.val()
            } else {
                raw.val()
            };
            &&& min.val() <= wanted <= max.val() ==> r.val() == wanted
            &&& wanted < min.val() ==> r.val() == min.val()
            &&& wanted > max.val() ==> r.val() == max.val()
        }),
        min.val() <= raw.val() <= max.val() ==> landed.val() == raw.val(),
        raw.val() < min.val() ==> landed.val() == min.val(),
        raw.val() > max.val() ==> landed.val() == max.val(),
        landed.bits != 0x8000_0000,
{
    lemma_plain(raw.limited(min, max));
}

proof fn lemma_plain(x: Single)
    ensures
        x.plain().val() == x.val(),
        x.plain().nan() == x.nan(),
{
    reveal(Single::val);
}

/// Small movements add up: the value before rounding is gone on from as long as it lies no more than
/// a step away, else the value itself is.
pub proof fn law_small_movements_add_up(kept: Option<Single>, off: Single, step: Single, value: Single, raw: Single)
    requires
        call_ensures(start_from, (kept, off, step, value), raw),
        !off.nan(),
        !step.nan(),
    ensures
        kept is None ==> raw == value,
        kept matches Some(k) ==> {
            &&& -step.val() <= off.val() <= step.val() ==> raw == k
            &&& off.val() > step.val() || off.val() < -step.val() ==> raw == value
        },
{
    reveal(Single::val);
}

/// A new value is taken over exactly where it is another one, and that is said.
pub proof fn law_new_value_is_taken_over(value: &mut Single, new: Single, changed: bool)
    requires
        call_ensures(take_over, (value, new), changed),
        !new.nan(),
        !old(value).nan(),
    ensures
        final(value).val() == new.val(),
        changed <==> new.val() != old(value).val(),
{
}

/// The line nearest to the pointer is taken; in the gutter the nearer one of yellow and red, and
/// never the limiter.
pub proof fn law_nearest_line_is_the_one(in_gutter: bool, yellow: Single, red: Single, limit: Single, line: MeterLine)
    requires
        call_ensures(line_at, (in_gutter, yellow, red, limit), line),
        yellow.finite(),
        red.finite(),
        limit.finite(),
        0 <= yellow.val() < (Single { bits: 0x7f7f_ffff }).val(),
        0 <= red.val() < (Single { bits: 0x7f7f_ffff }).val(),
    ensures
        in_gutter ==> line != MeterLine::Limit,
        in_gutter && red.val() < yellow.val() ==> line == MeterLine::Red,
        in_gutter && red.val() >= yellow.val() ==> line == MeterLine::Yellow,
        !in_gutter && limit.val() <= yellow.val() && limit.val() <= red.val() ==> line == MeterLine::Limit,
        !in_gutter && yellow.val() < limit.val() && yellow.val() <= red.val() ==> line == MeterLine::Yellow,
        !in_gutter && red.val() < limit.val() && red.val() < yellow.val() ==> line == MeterLine::Red,
{
}

/// While dragging, it is the line that the drag began with that moves, wherever the pointer is.
pub proof fn law_dragged_line_stays_the_same(
    line: Option<MeterLine>,
    code: u8,
    hovered: Option<MeterLine>,
    active: Option<MeterLine>,
    idle: Option<MeterLine>,
)
    requires
        call_ensures(drag_code, (line,), code),
        call_ensures(active_line, (true, Some(code), hovered), active),
        call_ensures(active_line, (false, Some(code), hovered), idle),
    ensures
        active == line,
        idle == hovered,
{
}

/// A dragged line goes to the pointer: yellow between -100 dB and red, red between yellow and 0 dB,
/// the limiter between -40 and 0 dB, each exactly there or at the nearer end; the others stay. A
/// double click on the limiter puts it at 0 dB.
pub proof fn law_dragged_line_goes_to_the_pointer(
    l: &mut Lines,
    line: MeterLine,
    db: Single,
    limit: Single,
    double_clicked: bool,
    changed: bool,
)
    requires
        call_ensures(Lines::drag, (l, Some(line), Some(db), limit, double_clicked), changed),
        !db.nan(),
        !old(l).yellow.nan(),
        !old(l).red.nan(),
        !old(l).limit.nan(),
        old(l).yellow.val() <= old(l).red.val(),
        -100 * pow2(149) <= old(l).yellow.val(),
        old(l).red.val() <= 0,
    ensures
        ({
            let to = db.val();
            let (low, high): (int, int) = match line {
                MeterLine::Yellow => (-100 * pow2(149), old(l).red.val()),
                MeterLine::Red => (old(l).yellow.val(), 0),
                MeterLine::Limit => (-40 * pow2(149), 0),
            };
            let end = if to < low {
                low
            } else if to > high {
                high
            } else {
                to
            };
            &&& line == MeterLine::Yellow ==> final(l).yellow.val() == end && final(l).red == old(l).red && final(l).limit
                == old(l).limit
            &&& line == MeterLine::Red ==> final(l).red.val() == end && final(l).yellow == old(l).yellow && final(l).limit
                == old(l).limit
            &&& line == MeterLine::Limit ==> final(l).yellow == old(l).yellow && final(l).red == old(l).red
            &&& line == MeterLine::Limit && !double_clicked ==> final(l).limit.val() == end
            &&& line == MeterLine::Limit && double_clicked ==> final(l).limit.val() == 0
        }),
        changed <==> final(l).yellow.val() != old(l).yellow.val() || final(l).red.val() != old(l).red.val() || final(
            l).limit.val() != old(l).limit.val(),
{
    crate::single::lemma_whole_val(0);
    crate::single::lemma_whole_val(-40);
    crate::single::lemma_whole_val(-100);
    lemma_plain(db.limited(whole_of(-100), old(l).red));
    lemma_plain(db.limited(old(l).yellow, whole_of(0)));
    lemma_plain(db.limited(whole_of(-40), whole_of(0)));
    lemma_plain(whole_of(0).limited(whole_of(-40), whole_of(0)));
}

/// The meter has the colours of the lights, and is grey when muted; what lies up to the level is
/// lit.
pub proof fn law_meter_has_the_colours_of_the_lights(
    db: Single,
    muted: bool,
    yellow: Single,
    red: Single,
    c: Colour,
    voice: Single,
    lit: bool,
)
    requires
        call_ensures(segment_colour, (db, muted, yellow, red), c),
        call_ensures(segment_lit, (db, voice), lit),
        !db.nan(),
        !yellow.nan(),
        !red.nan(),
        !voice.nan(),
    ensures
        muted <==> c == Colour::Grey,
        !muted && db.val() >= red.val() ==> c == Colour::Red,
        !muted && yellow.val() <= db.val() < red.val() ==> c == Colour::Yellow,
        !muted && db.val() < yellow.val() && db.val() < red.val() ==> c == Colour::Green,
        lit <==> db.val() <= voice.val(),
{
}

/// The limiter is on below 0 dB; it is shown then, and while it is touched.
pub proof fn law_limiter_is_off_at_zero(limit_db: Single, active: Option<MeterLine>, on: bool, shown: bool)
    requires
        call_ensures(limit_active, (limit_db,), on),
        call_ensures(limit_shown, (limit_db, active), shown),
        !limit_db.nan(),
    ensures
        on <==> limit_db.val() < 0,
        shown <==> limit_db.val() < 0 || active == Some(MeterLine::Limit),
{
    crate::single::lemma_whole_val(0);
}

/// A knob shows that it is off up to where it is, a button turns with each click, and the wheel counts
/// in front only.
pub proof fn law_knobs_and_buttons(
    value: Single,
    off_below: Single,
    shown: &str,
    code: u8,
    s: String,
    on: &mut bool,
    clicked: bool,
    hovered: bool,
    focused: bool,
    wheel: bool,
)
    requires
        call_ensures(knob_text, (value, off_below, shown, code), s),
        call_ensures(toggle, (on, clicked), ()),
        call_ensures(wheel_counts, (hovered, focused), wheel),
        !value.nan(),
        !off_below.nan(),
    ensures
        value.val() > off_below.val() ==> s@ == shown@,
        value.val() <= off_below.val() && code == 1 ==> s@ == "off"@,
        value.val() <= off_below.val() && code != 1 ==> s@ == "aus"@,
        clicked ==> *final(on) == !*old(on),
        !clicked ==> *final(on) == *old(on),
        wheel <==> hovered && focused,
{
}

/// The label of the limiter says its level while it works, and that it is off else.
pub proof fn law_limiter_says_its_level(limit_db: Single, shown: &str, code: u8, s: String)
    requires
        call_ensures(limit_label, (limit_db, shown, code), s),
        !limit_db.nan(),
    ensures
        limit_db.val() < 0 ==> s@ == "Lim\n"@ + shown@,
        limit_db.val() >= 0 && code == 1 ==> s@ == "Lim\n"@ + "off"@,
        limit_db.val() >= 0 && code != 1 ==> s@ == "Lim\n"@ + "aus"@,
{
    crate::single::lemma_whole_val(0);
}

/// The meter has 40 segments. Behind the button for closing it turns red under the pointer, and
/// behind the others something shows under the pointer or where they are on.
pub proof fn law_buttons_of_the_title(hovered: bool, icon: TitleIcon, selected: bool, b: Background)
    requires
        call_ensures(title_background, (hovered, icon, selected), b),
    ensures
        SEGMENTS == 40,
        b == Background::Warning <==> hovered && icon == TitleIcon::Close,
        !hovered && !selected <==> b == Background::Nothing,
{
}

/// What is said of a line is said with its own level: yellow with that of yellow, red with that of
/// red, which beeps where it does; without a line only the level of the voice is said.
pub proof fn law_each_line_says_its_level(
    line: Option<MeterLine>,
    beeps: bool,
    running: bool,
    level: &str,
    yellow: &str,
    red: &str,
    s: String,
)
    requires
        call_ensures(meter_hint, (line, beeps, running, level, yellow, red, 0u8), s),
    ensures
        ({
            let begun = "Pegel"@ + " "@ + level@ + " dB\n"@;
            &&& line is None ==> s@ == begun
            &&& line == Some(MeterLine::Yellow) ==> s@ == begun + ("Gelb ab"@ + " "@ + yellow@ + " dB · "@ + "Pfeil ziehen"@)
            &&& line == Some(MeterLine::Red) && beeps ==> s@ == begun + ("Rot und Warnton ab"@ + " "@ + red@ + " dB · "@
                + "Pfeil ziehen"@)
            &&& line == Some(MeterLine::Red) && !beeps ==> s@ == begun + ("Rot ab"@ + " "@ + red@ + " dB · "@
                + "Pfeil ziehen"@)
            &&& line == Some(MeterLine::Limit) && running ==> s@ == begun + "Limiter: Linie runterziehen, Doppelklick: aus."@
            &&& line == Some(MeterLine::Limit) && !running ==> s@ == begun
                + "Limiter: wirkt erst mit einem Ausgang (VB-Cable). Doppelklick: aus."@
        }),
{
    let begun = "Pegel"@ + " "@ + level@ + " dB\n"@;
    assert(line is None ==> s@ =~= begun);
}

} // verus!
