//! Hue intervals on the colour wheel, in whole degrees.
use vstd::prelude::*;

verus! {

/// Degrees in one full turn of the colour wheel.
pub const FULL_TURN: i64 = 360;

/// Brings a degree value into the wheel by at most one turn: values in
/// `[0, 360)` stay, negative values gain a turn and the others lose one.
pub open spec fn rotate_spec(d: int) -> int {
    if 0 <= d < 360 {
        d
    } else if d < 0 {
        360 + d
    } else {
        d - 360
    }
}

/// Executable form of [`rotate_spec`].
pub fn rotate_value(raw_value: i64) -> (r: i64)
    ensures
        r == rotate_spec(raw_value as int),
{
    if 0 <= raw_value && raw_value < FULL_TURN {
        raw_value
    } else if raw_value < 0 {
        FULL_TURN + raw_value
    } else {
        raw_value - FULL_TURN
    }
}

/// The half-open interval `[start, end)` of whole degrees.
#[derive(Debug, Clone, Copy, PartialEq, Eq, Structural)]
pub struct DegreeRange {
    pub start: i64,
    pub end: i64,
}

impl DegreeRange {
    /// Whether `d` lies in `[start, end)`.
    pub open spec fn spec_contains(self, d: int) -> bool {
        self.start <= d < self.end
    }

    /// Whether `d` lies in `[start, end)`.
    pub fn contains(&self, d: i64) -> (r: bool)
        ensures
            r == self.spec_contains(d as int),
    {
        self.start <= d && d < self.end
    }
}

/// An interval of the colour wheel that runs from a start angle to an end
/// angle and wraps past 360 degrees when the start lies after the end.
#[derive(Debug, Clone, Copy, PartialEq, Eq, Structural)]
pub struct Angle {
    pub range_1: DegreeRange,
    pub range_2: Option<DegreeRange>,
}

impl Angle {
    /// The interval that [`Angle::new`] builds from `start` and `end`.
    pub open spec fn spec_new(start: i64, end: i64) -> Angle {
        let s = rotate_spec(start as int);
        let e = rotate_spec(end as int);
        if s > e {
            Angle {
                range_1: DegreeRange { start: s as i64, end: FULL_TURN },
                range_2: Some(DegreeRange { start: 0, end: e as i64 }),
            }
        } else {
            Angle { range_1: DegreeRange { start: s as i64, end: e as i64 }, range_2: None }
        }
    }

    /// The first part of the interval, which begins at the start angle.
    pub open spec fn spec_range_1(self) -> DegreeRange {
        self.range_1
    }

    /// The part after the wrap at 360 degrees, if the interval wraps.
    pub open spec fn spec_range_2(self) -> Option<DegreeRange> {
        self.range_2
    }

    /// Whether the degree `d`, brought onto the wheel by one turn, lies in
    /// the interval.
    pub open spec fn spec_contains(self, d: int) -> bool {
        let t = rotate_spec(d);
        self.range_1.spec_contains(t) || match self.range_2 {
            Some(r) => r.spec_contains(t),
            None => false,
        }
    }

    /// The start angle of the interval.
    pub open spec fn spec_start(self) -> int {
        self.range_1.start as int
    }

    /// The end angle of the interval.
    pub open spec fn spec_end(self) -> int {
        match self.range_2 {
            Some(r) => r.end as int,
            None => self.range_1.end as int,
        }
    }

    /// Builds the interval from `start` to `end`: both are brought onto the
    /// wheel by one turn, and when the start then lies after the end the
    /// interval is split at 360 degrees into `[start, 360)` and `[0, end)`.
    pub fn new(start: i64, end: i64) -> (r: Angle)
        ensures
            r == Angle::spec_new(start, end),
    {
        let start = rotate_value(start);
        let end = rotate_value(end);
        if start > end {
            Angle {
                range_1: DegreeRange { start, end: FULL_TURN },
                range_2: Some(DegreeRange { start: 0, end }),
            }
        } else {
            Angle { range_1: DegreeRange { start, end }, range_2: None }
        }
    }

    /// Whether the whole-degree value `target` lies in the interval once it
    /// is brought onto the wheel by one turn.
    ///
    /// For a real hue `h`, `contains(floor(h))` answers whether `h` itself
    /// lies in the interval, since both bounds are whole degrees.
    pub fn contains(&self, target: i64) -> (r: bool)
        ensures
            r == self.spec_contains(target as int),
    {
        let target = rotate_value(target);
        if self.range_1.contains(target) {
            true
        } else {
            match &self.range_2 {
                Some(r) => r.contains(target),
                None => false,
            }
        }
    }

    /// The start angle of the interval.
    pub fn start(&self) -> (r: i64)
        ensures
            r == self.spec_start(),
    {
        self.range_1.start
    }

    /// The end angle of the interval.
    pub fn end(&self) -> (r: i64)
        ensures
            r == self.spec_end(),
    {
        match &self.range_2 {
            Some(r) => r.end,
            None => self.range_1.end,
        }
    }

    /// The first part of the interval.
    pub fn range_1(&self) -> (r: DegreeRange)
        ensures
            r == self.spec_range_1(),
    {
        self.range_1
    }

    /// The part after the wrap at 360 degrees, if any.
    pub fn range_2(&self) -> (r: Option<DegreeRange>)
        ensures
            r == self.spec_range_2(),
    {
        self.range_2
    }
}

/// For a start, an end and a degree on the wheel, the interval holds the
/// degree exactly when turning from the start to the degree takes fewer
/// degrees than turning from the start to the end: the interval is the arc
/// swept counter-clockwise from its start to its end.
pub proof fn lemma_angle_is_swept_arc(start: i64, end: i64, d: int)
    requires
        0 <= start < 360,
        0 <= end < 360,
        0 <= d < 360,
    ensures
        Angle::spec_new(start, end).spec_contains(d) <==> (d - start) % 360 < (end - start) % 360,
{
    if d >= start {
        assert((d - start) % 360 == d - start);
    } else {
        assert((d - start) % 360 == d - start + 360);
    }
    if end >= start {
        assert((end - start) % 360 == end - start);
    } else {
        assert((end - start) % 360 == end - start + 360);
    }
}

/// The interval from `start` to `end` and the one from `end` to `start`
/// split the wheel: every degree lies in exactly one of them, unless both
/// ends coincide, in which case both intervals are empty.
pub proof fn lemma_angle_complement(start: i64, end: i64, d: int)
    requires
        0 <= start < 360,
        0 <= end < 360,
        0 <= d < 360,
    ensures
        start != end ==> (Angle::spec_new(start, end).spec_contains(d) != Angle::spec_new(
            end,
            start,
        ).spec_contains(d)),
        start == end ==> !Angle::spec_new(start, end).spec_contains(d),
{
}

/// A degree one turn below or above the wheel lies in an interval exactly
/// when the corresponding degree on the wheel does.
pub proof fn lemma_angle_one_turn(start: i64, end: i64, d: int)
    requires
        0 <= d < 360,
    ensures
        Angle::spec_new(start, end).spec_contains(d - 360) == Angle::spec_new(
            start,
            end,
        ).spec_contains(d),
        Angle::spec_new(start, end).spec_contains(d + 360) == Angle::spec_new(
            start,
            end,
        ).spec_contains(d),
{
}

/// The start and end that an interval reports are its arguments, once
/// brought onto the wheel.
pub proof fn lemma_angle_bounds(start: i64, end: i64)
    ensures
        Angle::spec_new(start, end).spec_start() == rotate_spec(start as int),
        Angle::spec_new(start, end).spec_end() == rotate_spec(end as int),
{
}

} // verus!
