use vstd::prelude::*;

use crate::coordinates::kerr_schild;
use crate::coordinates::{RadialBand, Region, RegionType};

verus! {

/// The discrete labels of a point in a Boyer–Lindquist chart: the number of
/// universes and whether it is the "other" piece. By default the radius
/// decreases from bottom-right to top-left. Outside the outer horizon and
/// inside the inner horizon, shifting takes us to the parallel universe, while
/// between the horizons shifting flips the time orientation.
/// The radius is known here through `band` and `radius_rev` (its sign).
#[derive(Debug, Clone, Copy, PartialEq, Eq, Structural)]
pub struct Pt {
    pub base: i32,
    pub radius_rev: bool,
    pub shift: bool,
    pub band: RadialBand,
}

impl Pt {
    /// The kind of region the point lies in.
    pub open spec fn region_type(self) -> RegionType {
        if self.band.below_inner() {
            if self.shift {
                RegionType::UsSing
            } else {
                RegionType::ParaSing
            }
        } else if self.band.below_outer() {
            if self.shift {
                RegionType::AfterInner
            } else {
                RegionType::AfterOuter
            }
        } else {
            if self.shift {
                RegionType::Para
            } else {
                RegionType::Us
            }
        }
    }

    /// The Boyer–Lindquist universe number of a Kerr–Schild point: the chart
    /// below the outer horizon of a time reversed point belongs to the
    /// previous universe.
    pub open spec fn converted_base(pt: kerr_schild::Pt) -> int {
        if pt.band.below_outer() && pt.time_rev {
            pt.base - 1
        } else {
            pt.base as int
        }
    }

    /// The converted universe number fits in an `i32`.
    pub open spec fn conversion_fits(pt: kerr_schild::Pt) -> bool {
        Self::converted_base(pt) >= i32::MIN
    }

    /// The Boyer–Lindquist labels of a Kerr–Schild point: the shift is the
    /// parallel status strictly outside the horizons and the time orientation
    /// otherwise; the radius is the same.
    pub open spec fn converted(pt: kerr_schild::Pt) -> Pt {
        Pt {
            base: Self::converted_base(pt) as i32,
            radius_rev: pt.radius_rev,
            shift: if pt.band.below_inner() || pt.band.above_outer() {
                pt.parallel
            } else {
                pt.time_rev
            },
            band: pt.band,
        }
    }

    /// Returns the cosmological region.
    pub fn region(self) -> (r: Region)
        ensures
            r.0 == self.base,
            r.1 == self.region_type(),
            (r.1 == RegionType::UsSing || r.1 == RegionType::ParaSing) == (self.band is BelowInner),
            (r.1 == RegionType::AfterInner || r.1 == RegionType::AfterOuter) == (self.band is AtInner
                || self.band is Between),
            r.1 == RegionType::UsSing || r.1 == RegionType::AfterInner || r.1 == RegionType::Para
                <==> self.shift,
    {
        if self.band.is_below_inner() {
            (self.base, if self.shift { RegionType::UsSing } else { RegionType::ParaSing })
        } else if self.band.is_below_outer() {
            (self.base, if self.shift { RegionType::AfterInner } else { RegionType::AfterOuter })
        } else {
            (self.base, if self.shift { RegionType::Para } else { RegionType::Us })
        }
    }

    /// The Boyer–Lindquist labels of a point given in Kerr–Schild labels.
    pub fn from_kerr_schild(pt: kerr_schild::Pt) -> (p: Pt)
        requires
            Self::conversion_fits(pt),
        ensures
            p == Self::converted(pt),
            p.radius_rev == pt.radius_rev,
            p.band == pt.band,
            p.base == pt.base - 1 <==> (pt.time_rev && (pt.band is BelowInner || pt.band is AtInner
                || pt.band is Between)),
            p.base == pt.base || p.base == pt.base - 1,
            (pt.band is BelowInner || pt.band is AboveOuter) ==> p.shift == pt.parallel,
            !(pt.band is BelowInner || pt.band is AboveOuter) ==> p.shift == pt.time_rev,
    {
        let base = if pt.band.is_below_outer() && pt.time_rev {
            pt.base - 1
        } else {
            pt.base
        };
        let shift = if pt.band.is_below_inner() || pt.band.is_above_outer() {
            pt.parallel
        } else {
            pt.time_rev
        };
        Pt { base, radius_rev: pt.radius_rev, shift, band: pt.band }
    }
}

/// Whether the Boyer–Lindquist time coordinate and the second spatial
/// coordinate of a Kerr–Schild point are taken with reversed sign: exactly
/// when one of its time reversal and parallel flags is set.
pub fn orientation_reversed(pt: kerr_schild::Pt) -> (b: bool)
    ensures
        b == (pt.time_rev != pt.parallel),
{
    pt.time_rev != pt.parallel
}

/// The conversion keeps the radius: its band and its sign.
pub proof fn from_kerr_schild_keeps_radius(pt: kerr_schild::Pt)
    requires
        Pt::conversion_fits(pt),
    ensures
        Pt::converted(pt).radius_rev == pt.radius_rev,
        Pt::converted(pt).band == pt.band,
{
}

/// The shift is a real label: toggling it always changes the region kind, and
/// the sign of the radius never does.
pub proof fn region_depends_on_shift(p: Pt, q: Pt)
    requires
        q.band == p.band,
    ensures
        q.shift != p.shift ==> q.region_type() != p.region_type(),
        q.shift == p.shift ==> q.region_type() == p.region_type(),
{
}

/// The radius is strictly inside the inner horizon, strictly between the
/// horizons or strictly outside the outer one.
pub open spec fn off_the_horizons(band: RadialBand) -> bool {
    band is BelowInner || band is Between || band is AboveOuter
}

/// Away from the horizons, the Boyer–Lindquist labels of a point name the
/// same region as its Kerr–Schild labels.
pub proof fn from_kerr_schild_keeps_region(pt: kerr_schild::Pt)
    requires
        off_the_horizons(pt.band),
        Pt::conversion_fits(pt),
    ensures
        Pt::converted(pt).base == pt.region_base(),
        Pt::converted(pt).region_type() == pt.region_type(),
{
}

/// Away from the horizons, a point and its flip in the other Kerr–Schild
/// chart get the same Boyer–Lindquist labels.
pub proof fn from_kerr_schild_ignores_flip(pt: kerr_schild::Pt)
    requires
        off_the_horizons(pt.band),
        pt.flip_fits(),
        Pt::conversion_fits(pt),
    ensures
        Pt::conversion_fits(pt.flipped()),
        Pt::converted(pt.flipped()) == Pt::converted(pt),
{
}

} // verus!
