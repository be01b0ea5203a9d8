//! Pixel filters of the colour spaces: which converted colours take part in
//! a tally.
//!
//! The rectangular spaces (CIELAB, OKLAB) keep every colour. The cylindrical
//! ones (CIELCH, OKLCH, HSL) keep the colours whose hue lies in an optional
//! hue interval. A hue is handed to a filter as a [`HueSample`]: the whole
//! degree at or below it, or `None` when the hue is not a finite number.
use vstd::prelude::*;

use crate::angle::{lemma_angle_is_swept_arc, Angle};

verus! {

/// The whole degree at or below a hue (`floor`), or `None` for a hue that is
/// not finite. Since every hue interval has whole-degree bounds, a finite hue
/// lies in an interval exactly when its sample does.
pub type HueSample = Option<i64>;

/// The hue interval chosen by the optional start and end hues: none without
/// an end hue, else the interval from the start hue (0 when absent) to the
/// end hue.
pub open spec fn spec_hue_filter(start_hue: Option<u16>, end_hue: Option<u16>) -> Option<Angle> {
    match end_hue {
        Some(end) => Some(
            Angle::spec_new(
                match start_hue {
                    Some(s) => s as i64,
                    None => 0,
                },
                end as i64,
            ),
        ),
        None => None,
    }
}

/// Whether a hue sample passes an optional hue interval: every hue passes
/// when there is no interval; otherwise a finite hue passes when it lies in
/// the interval, and a non-finite one never does.
pub open spec fn spec_passes(hue_filter: Option<Angle>, hue: HueSample) -> bool {
    match hue_filter {
        Some(angle) => match hue {
            Some(d) => angle.spec_contains(d as int),
            None => false,
        },
        None => true,
    }
}

/// The hue that an optional reference points to.
pub open spec fn spec_copied(hue: Option<&u16>) -> Option<u16> {
    match hue {
        Some(h) => Some(*h),
        None => None,
    }
}

fn copied(hue: Option<&u16>) -> (r: Option<u16>)
    ensures
        r == spec_copied(hue),
        hue matches Some(h) ==> r == Some(*h),
        hue is None ==> r is None,
{
    match hue {
        Some(h) => Some(*h),
        None => None,
    }
}

/// Builds the hue interval of a filter from the optional start and end hues
/// (see [`spec_hue_filter`]).
pub fn create_hue_filter(start_hue: Option<u16>, end_hue: Option<u16>) -> (r: Option<Angle>)
    ensures
        r == spec_hue_filter(start_hue, end_hue),
{
    match end_hue {
        Some(end) => {
            let start = match start_hue {
                Some(s) => s,
                None => 0,
            };
            Some(Angle::new(start as i64, end as i64))
        },
        None => None,
    }
}

/// Applies an optional hue interval to a hue sample (see [`spec_passes`]).
pub fn passes_hue_filter(hue_filter: &Option<Angle>, hue: HueSample) -> (r: bool)
    ensures
        r == spec_passes(*hue_filter, hue),
{
    match hue_filter {
        Some(angle) => match hue {
            Some(d) => angle.contains(d),
            None => false,
        },
        None => true,
    }
}

/// With a start and an end hue on the wheel, a filter keeps exactly the
/// colours whose hue lies on the arc swept from the start hue to the end
/// hue; without an end hue it keeps every colour, hue or not.
pub proof fn lemma_hue_filter_keeps_arc(start_hue: u16, end_hue: u16, d: int)
    requires
        start_hue < 360,
        end_hue < 360,
        0 <= d < 360,
    ensures
        spec_passes(spec_hue_filter(Some(start_hue), Some(end_hue)), Some(d as i64)) <==> (d
            - start_hue) % 360 < (end_hue - start_hue) % 360,
        spec_passes(spec_hue_filter(Some(start_hue), None), Some(d as i64)),
        spec_passes(spec_hue_filter(Some(start_hue), None), None),
{
    lemma_angle_is_swept_arc(start_hue as i64, end_hue as i64, d);
}

/// Without a start hue the interval starts at 0: for an end hue on the wheel
/// the filter keeps exactly the hues below the end hue, as if the start hue
/// 0 had been given.
pub proof fn lemma_hue_filter_start_defaults_to_zero(end_hue: u16, d: int)
    requires
        end_hue < 360,
        0 <= d < 360,
    ensures
        spec_passes(spec_hue_filter(None, Some(end_hue)), Some(d as i64)) <==> d < end_hue,
        spec_hue_filter(None, Some(end_hue)) == spec_hue_filter(Some(0), Some(end_hue)),
{
}

/// A hue given by reference reaches the filter unchanged, 0 included, and
/// with both hues given the filter keeps exactly the arc swept from the
/// start hue to the end hue; with no end hue there is no interval at all.
pub proof fn lemma_given_hues_pass_through(start_hue: u16, end_hue: u16, d: int)
    requires
        start_hue < 360,
        end_hue < 360,
        0 <= d < 360,
    ensures
        spec_copied(Some(&start_hue)) == Some(start_hue),
        spec_copied(Some(&end_hue)) == Some(end_hue),
        spec_copied(None) is None,
        spec_passes(
            spec_hue_filter(spec_copied(Some(&start_hue)), spec_copied(Some(&end_hue))),
            Some(d as i64),
        ) <==> (d - start_hue) % 360 < (end_hue - start_hue) % 360,
        spec_hue_filter(spec_copied(Some(&start_hue)), spec_copied(None)) is None,
{
    lemma_angle_is_swept_arc(start_hue as i64, end_hue as i64, d);
}

/// The filter of the CIELAB colour space: it keeps every colour.
#[derive(Debug, Clone, Copy, PartialEq, Eq, Structural)]
pub struct CielabFilter {}

impl CielabFilter {
    /// The CIELAB filter.
    pub fn new() -> (r: CielabFilter)
        ensures
            r == (CielabFilter {}),
    {
        CielabFilter {  }
    }

    /// The CIELAB filter has no hue interval.
    pub fn hue_filter(&self) -> (r: Option<&Angle>)
        ensures
            r is None,
    {
        None
    }
}

/// The filter of the OKLAB colour space: it keeps every colour.
#[derive(Debug, Clone, Copy, PartialEq, Eq, Structural)]
pub struct OklabFilter {}

impl OklabFilter {
    /// The OKLAB filter.
    pub fn new() -> (r: OklabFilter)
        ensures
            r == (OklabFilter {}),
    {
        OklabFilter {  }
    }

    /// The OKLAB filter has no hue interval.
    pub fn hue_filter(&self) -> (r: Option<&Angle>)
        ensures
            r is None,
    {
        None
    }
}

/// The filter of the CIELCH colour space: it keeps the colours whose hue
/// (third component) passes its optional hue interval.
#[derive(Debug, Clone, Copy, PartialEq, Eq, Structural)]
pub struct CielchFilter {
    pub hue_filter: Option<Angle>,
}

impl CielchFilter {
    /// The CIELCH filter for the optional start and end hues.
    pub fn new(start_hue: Option<&u16>, end_hue: Option<&u16>) -> (r: CielchFilter)
        ensures
            r.hue_filter == spec_hue_filter(spec_copied(start_hue), spec_copied(end_hue)),
            end_hue is None ==> r.hue_filter is None,
            end_hue matches Some(e) ==> r.hue_filter == Some(
                Angle::spec_new(
                    match start_hue {
                        Some(s) => *s as i64,
                        None => 0,
                    },
                    *e as i64,
                ),
            ),
    {
        let hue_filter = create_hue_filter(copied(start_hue), copied(end_hue));
        CielchFilter { hue_filter }
    }

    /// Whether a colour whose hue has this sample takes part in the tally.
    pub fn contains_hue(&self, hue: HueSample) -> (r: bool)
        ensures
            r == spec_passes(self.hue_filter, hue),
    {
        passes_hue_filter(&self.hue_filter, hue)
    }

    /// The hue interval of the filter, if any.
    pub fn hue_filter(&self) -> (r: Option<&Angle>)
        ensures
            r == match self.hue_filter {
                Some(a) => Some(&a),
                None => None,
            },
    {
        self.hue_filter.as_ref()
    }
}

/// The filter of the OKLCH colour space: it keeps the colours whose hue
/// (third component) passes its optional hue interval.
#[derive(Debug, Clone, Copy, PartialEq, Eq, Structural)]
pub struct OklchFilter {
    pub hue_filter: Option<Angle>,
}

impl OklchFilter {
    /// The OKLCH filter for the optional start and end hues.
    pub fn new(start_hue: Option<&u16>, end_hue: Option<&u16>) -> (r: OklchFilter)
        ensures
            r.hue_filter == spec_hue_filter(spec_copied(start_hue), spec_copied(end_hue)),
            end_hue is None ==> r.hue_filter is None,
            end_hue matches Some(e) ==> r.hue_filter == Some(
                Angle::spec_new(
                    match start_hue {
                        Some(s) => *s as i64,
                        None => 0,
                    },
                    *e as i64,
                ),
            ),
    {
        let hue_filter = create_hue_filter(copied(start_hue), copied(end_hue));
        OklchFilter { hue_filter }
    }

    /// Whether a colour whose hue has this sample takes part in the tally.
    pub fn contains_hue(&self, hue: HueSample) -> (r: bool)
        ensures
            r == spec_passes(self.hue_filter, hue),
    {
        passes_hue_filter(&self.hue_filter, hue)
    }

    /// The hue interval of the filter, if any.
    pub fn hue_filter(&self) -> (r: Option<&Angle>)
        ensures
            r == match self.hue_filter {
                Some(a) => Some(&a),
                None => None,
            },
    {
        self.hue_filter.as_ref()
    }
}

/// The filter of the HSL colour space: it keeps the colours whose hue
/// (first component) passes its optional hue interval.
#[derive(Debug, Clone, Copy, PartialEq, Eq, Structural)]
pub struct HslFilter {
    pub hue: Option<Angle>,
}

impl HslFilter {
    /// The HSL filter for the optional start and end hues.
    pub fn new(start_hue: &Option<u16>, end_hue: &Option<u16>) -> (r: HslFilter)
        ensures
            r.hue == spec_hue_filter(*start_hue, *end_hue),
    {
        let hue = create_hue_filter(*start_hue, *end_hue);
        HslFilter { hue }
    }

    /// Whether a colour whose hue has this sample takes part in the tally.
    pub fn contains_hue(&self, hue: HueSample) -> (r: bool)
        ensures
            r == spec_passes(self.hue, hue),
    {
        passes_hue_filter(&self.hue, hue)
    }

    /// The hue interval of the filter, if any.
    pub fn hue_filter(&self) -> (r: Option<&Angle>)
        ensures
            r == match self.hue {
                Some(a) => Some(&a),
                None => None,
            },
    {
        self.hue.as_ref()
    }
}

} // verus!
