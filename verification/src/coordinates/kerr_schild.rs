use vstd::prelude::*;

use crate::coordinates::{RadialBand, Region, RegionType};

verus! {

/// The discrete labels of a point in a Kerr–Schild chart.
///
/// By default the chart spans the region outside the outer horizon (`Us`),
/// the region between the horizons entered through the outer one (`AfterOuter`)
/// and the parallel singular region (`ParaSing`). `base` shifts the universe
/// number, `parallel` flips left and right, `time_rev` flips up and down.
/// The radius itself is known here only through `band`, its position with
/// respect to the two horizons, and through `radius_rev`, whether it is
/// negative (the points beyond the ring have a negative radius).
#[derive(Debug, Clone, Copy, PartialEq, Eq, Structural)]
pub struct Pt {
    pub base: i32,
    pub parallel: bool,
    pub time_rev: bool,
    pub radius_rev: bool,
    pub band: RadialBand,
}

impl Pt {
    /// The universe number of the region the point lies in.
    pub open spec fn region_base(self) -> int {
        if self.band.at_most_outer() && self.time_rev {
            self.base - 1
        } else {
            self.base as int
        }
    }

    /// The kind of region the point lies in.
    pub open spec fn region_type(self) -> RegionType {
        if self.band.at_most_inner() {
            if self.parallel {
                RegionType::UsSing
            } else {
                RegionType::ParaSing
            }
        } else if self.band.at_most_outer() {
            if self.time_rev {
                RegionType::AfterInner
            } else {
                RegionType::AfterOuter
            }
        } else {
            if self.parallel {
                RegionType::Para
            } else {
                RegionType::Us
            }
        }
    }

    /// The region's universe number fits in an `i32`.
    pub open spec fn region_fits(self) -> bool {
        self.band.at_most_outer() && self.time_rev ==> self.base > i32::MIN
    }

    /// The universe number after a flip: inside the inner horizon flipping
    /// moves to the next (or, time reversed, the previous) universe.
    pub open spec fn flip_base(self) -> int {
        if self.band.at_most_inner() {
            if self.time_rev {
                self.base - 1
            } else {
                self.base + 1
            }
        } else {
            self.base as int
        }
    }

    /// The universe number after a flip fits in an `i32`.
    pub open spec fn flip_fits(self) -> bool {
        i32::MIN <= self.flip_base() <= i32::MAX
    }

    /// The labels of the same point named in the other chart. Strictly
    /// between the horizons the parallel status changes; elsewhere the time
    /// orientation does. The radius is unchanged.
    pub open spec fn flipped(self) -> Pt {
        Pt {
            base: self.flip_base() as i32,
            parallel: self.parallel != self.band.strictly_between(),
            time_rev: self.time_rev == self.band.strictly_between(),
            radius_rev: self.radius_rev,
            band: self.band,
        }
    }

    /// Builds the labels of a point.
    pub fn new(base: i32, parallel: bool, time_rev: bool, radius_rev: bool, band: RadialBand) -> (p: Pt)
        ensures
            p.base == base,
            p.parallel == parallel,
            p.time_rev == time_rev,
            p.radius_rev == radius_rev,
            p.band == band,
    {
        Pt { base, parallel, time_rev, radius_rev, band }
    }

    /// Returns the cosmological region.
    pub fn region(self) -> (r: Region)
        requires
            self.region_fits(),
        ensures
            r.0 == self.region_base(),
            r.1 == self.region_type(),
            (r.1 == RegionType::UsSing || r.1 == RegionType::ParaSing) == (self.band is BelowInner
                || self.band is AtInner),
            (r.1 == RegionType::Us || r.1 == RegionType::Para) == (self.band is AboveOuter
                || self.band is Undefined),
            r.1 == RegionType::UsSing || r.1 == RegionType::Para ==> self.parallel,
            r.1 == RegionType::ParaSing || r.1 == RegionType::Us ==> !self.parallel,
            r.1 == RegionType::AfterInner ==> self.time_rev && r.0 == self.base - 1,
            r.1 == RegionType::AfterOuter ==> !self.time_rev && r.0 == self.base,
            r.0 == self.base - 1 || r.0 == self.base,
            r.0 == self.base - 1 <==> (self.time_rev && !(self.band is AboveOuter)
                && !(self.band is Undefined)),
    {
        if self.band.is_at_most_inner() {
            (
                if self.time_rev { self.base - 1 } else { self.base },
                if self.parallel { RegionType::UsSing } else { RegionType::ParaSing },
            )
        } else if self.band.is_at_most_outer() {
            if self.time_rev {
                (self.base - 1, RegionType::AfterInner)
            } else {
                (self.base, RegionType::AfterOuter)
            }
        } else {
            (self.base, if self.parallel { RegionType::Para } else { RegionType::Us })
        }
    }

    /// The labels of the same point in the other chart.
    pub fn flip(self) -> (p: Pt)
        requires
            self.flip_fits(),
        ensures
            p == self.flipped(),
            p.band == self.band,
            p.radius_rev == self.radius_rev,
            p != self,
            self.band is Between ==> p.parallel != self.parallel && p.time_rev == self.time_rev
                && p.base == self.base,
            !(self.band is Between) ==> p.parallel == self.parallel && p.time_rev
                != self.time_rev,
            (self.band is BelowInner || self.band is AtInner) && self.time_rev ==> p.base
                == self.base - 1,
            (self.band is BelowInner || self.band is AtInner) && !self.time_rev ==> p.base
                == self.base + 1,
            !(self.band is BelowInner || self.band is AtInner) ==> p.base == self.base,
    {
        // In the singular region flipping changes the base universe.
        let base = if self.band.is_at_most_inner() {
            if self.time_rev {
                self.base - 1
            } else {
                self.base + 1
            }
        } else {
            self.base
        };
        // Strictly between the horizons the parallel status flips,
        // elsewhere the time orientation does.
        let is_middle = self.band.is_strictly_between();
        let parallel = is_middle != self.parallel;
        let time_rev = is_middle == self.time_rev;
        Pt { base, parallel, time_rev, radius_rev: self.radius_rev, band: self.band }
    }

    /// The sign label of the radius after the point is moved by a step: it
    /// changes exactly when the step crosses the equatorial plane inside the
    /// ring, that is through the disc that the ring bounds.
    pub fn nudged_radius_rev(self, crosses_plane: bool, inside_ring: bool) -> (rev: bool)
        ensures
            rev == (self.radius_rev != (crosses_plane && inside_ring)),
    {
        if crosses_plane && inside_ring {
            !self.radius_rev
        } else {
            self.radius_rev
        }
    }
}

/// How the flags orient a Kerr–Schild chart: without them it spans the
/// parallel singular region, the region after the outer horizon and our
/// exterior, all in the base universe; `parallel` exchanges left and right
/// (`Us` with `Para`, `UsSing` with `ParaSing`), and between the horizons
/// `time_rev` exchanges up and down (`AfterOuter` with `AfterInner`, one
/// universe earlier).
pub proof fn chart_orientation(p: Pt)
    ensures
        !p.parallel && !p.time_rev ==> p.region_base() == p.base && (
        if p.band.at_most_inner() {
            p.region_type() == RegionType::ParaSing
        } else if p.band.at_most_outer() {
            p.region_type() == RegionType::AfterOuter
        } else {
            p.region_type() == RegionType::Us
        }),
        !p.band.at_most_outer() ==> (p.region_type() == RegionType::Us) == !p.parallel,
        !p.band.at_most_outer() ==> (p.region_type() == RegionType::Para) == p.parallel,
        p.band.at_most_inner() ==> (p.region_type() == RegionType::ParaSing) == !p.parallel,
        p.band.at_most_inner() ==> (p.region_type() == RegionType::UsSing) == p.parallel,
        p.band.at_most_outer() && !p.band.at_most_inner() ==> (p.region_type()
            == RegionType::AfterInner) == p.time_rev && p.region_base() == p.base - (
        if p.time_rev {
            1int
        } else {
            0int
        }),
{
}

/// Flipping always moves to the other chart: strictly between the horizons it
/// changes the parallel status and keeps the time orientation and universe;
/// elsewhere it keeps the parallel status and reverses the time orientation.
/// The radius is untouched, and the labels never come back unchanged.
pub proof fn flip_moves_to_other_chart(p: Pt)
    requires
        p.flip_fits(),
    ensures
        p.flipped() != p,
        p.flipped().band == p.band,
        p.flipped().radius_rev == p.radius_rev,
        p.band is Between ==> p.flipped().parallel != p.parallel && p.flipped().time_rev
            == p.time_rev && p.flipped().base == p.base,
        !(p.band is Between) ==> p.flipped().parallel == p.parallel && p.flipped().time_rev
            != p.time_rev,
{
}

/// Flipping changes the universe number only inside (or at) the inner horizon,
/// by one step: forward for a future directed point, back for a past directed one.
pub proof fn flip_universe_step(p: Pt)
    requires
        p.flip_fits(),
    ensures
        (p.band is BelowInner || p.band is AtInner) ==> p.flipped().base == p.base + (if p.time_rev {
            -1int
        } else {
            1int
        }),
        !(p.band is BelowInner || p.band is AtInner) ==> p.flipped().base == p.base,
{
}

/// The region does not depend on the sign of the radius, and moving the base
/// universe moves the region's universe by the same amount without changing
/// its kind.
pub proof fn region_shifts_with_base(p: Pt, q: Pt)
    requires
        q.parallel == p.parallel,
        q.time_rev == p.time_rev,
        q.band == p.band,
    ensures
        q.region_type() == p.region_type(),
        q.region_base() - p.region_base() == q.base - p.base,
{
}

/// The region kinds are told apart by the band and the flags: toggling the
/// parallel flag changes the kind exactly off the region between the horizons,
/// toggling the time orientation changes it exactly there.
pub proof fn region_flags_matter(p: Pt, q: Pt)
    requires
        q.band == p.band,
        q.base == p.base,
        q.radius_rev == p.radius_rev,
    ensures
        q.time_rev == p.time_rev && q.parallel != p.parallel ==> (q.region_type()
            != p.region_type() <==> !(p.band is Between || p.band is AtOuter)),
        q.parallel == p.parallel && q.time_rev != p.time_rev ==> (q.region_type()
            != p.region_type() <==> (p.band is Between || p.band is AtOuter)),
{
}

/// Flipping the chart keeps the point in its region, wherever the radius is
/// not exactly at the outer horizon.
pub proof fn flip_keeps_region(p: Pt)
    requires
        p.flip_fits(),
        !(p.band is AtOuter),
    ensures
        p.flipped().region_base() == p.region_base(),
        p.flipped().region_type() == p.region_type(),
        p.flipped().region_fits() == p.region_fits(),
{
}

/// Flipping the chart twice gives the same labels back.
pub proof fn flip_flip(p: Pt)
    requires
        p.flip_fits(),
    ensures
        p.flipped().flip_fits(),
        p.flipped().flipped() == p,
{
}

/// What the adaptive integrator does with a trial step once it knows whether
/// the step's error estimate is within the tolerance.
#[derive(Debug, Clone, Copy, PartialEq, Eq, Structural)]
pub enum StepVerdict {
    /// Take the step.
    Accept,
    /// Try again with the reduced step size.
    Retry,
    /// The step size has become too small: integration cannot go on.
    Abort,
}

/// Decides a trial step: one within the tolerance is taken; otherwise it is
/// tried again with the reduced step size, unless that has become too small.
pub fn step_verdict(within_tolerance: bool, step_too_small: bool) -> (v: StepVerdict)
    ensures
        within_tolerance ==> v == StepVerdict::Accept,
        !within_tolerance && step_too_small ==> v == StepVerdict::Abort,
        !within_tolerance && !step_too_small ==> v == StepVerdict::Retry,
{
    if within_tolerance {
        StepVerdict::Accept
    } else if step_too_small {
        StepVerdict::Abort
    } else {
        StepVerdict::Retry
    }
}

/// Whether the integrator switches to the other chart before a step.
///
/// Switching is only considered while the step size is small (`slowing`).
/// Inside the inner horizon a future directed point switches, at or outside
/// the outer horizon a past directed one does. Otherwise (between the horizons,
/// or for an undefined radius) the geodesic equations blow up at the horizon
/// through the term `a / Delta * (2 m r_h E - a L)`, and the point switches when
/// the sign of the spin, the sign of `2 m r_h E - a L` (taken at the horizon the
/// geodesic is heading for) and the time orientation disagree an odd number of
/// times.
pub open spec fn switch_rule(pt: Pt, slowing: bool, spin_positive: bool, horizon_term_positive: bool) -> bool {
    slowing && if pt.band.at_most_inner() {
        !pt.time_rev
    } else if pt.band.at_least_outer() {
        pt.time_rev
    } else {
        (spin_positive != horizon_term_positive) != pt.time_rev
    }
}

/// Which of the two charts the integrator currently works in; the states it
/// hands out are flipped back when this is set.
#[derive(Debug, Clone, Copy, PartialEq, Eq, Structural)]
pub struct ChartTracker {
    pub flipped: bool,
}

impl ChartTracker {
    /// The integrator starts in the chart it was given.
    pub fn new() -> (t: ChartTracker)
        ensures
            !t.flipped,
    {
        ChartTracker { flipped: false }
    }

    /// Decides, before a step, whether the state at `pt` is to be flipped to
    /// the other chart, and records the switch.
    pub fn begin_step(
        &mut self,
        pt: Pt,
        slowing: bool,
        spin_positive: bool,
        horizon_term_positive: bool,
    ) -> (switch: bool)
        ensures
            switch == switch_rule(pt, slowing, spin_positive, horizon_term_positive),
            final(self).flipped == (old(self).flipped != switch),
            !slowing ==> !switch,
            slowing && (pt.band is BelowInner || pt.band is AtInner) ==> switch == !pt.time_rev,
            slowing && (pt.band is AtOuter || pt.band is AboveOuter) ==> switch == pt.time_rev,
            slowing && (pt.band is Between || pt.band is Undefined) ==> switch == ((
            spin_positive != horizon_term_positive) != pt.time_rev),
    {
        let switch = if slowing {
            if pt.band.is_at_most_inner() {
                !pt.time_rev
            } else if pt.band.is_at_least_outer() {
                pt.time_rev
            } else {
                (spin_positive != horizon_term_positive) != pt.time_rev
            }
        } else {
            false
        };
        if switch {
            self.flipped = !self.flipped;
        }
        switch
    }
}

/// The switch decision depends on the time orientation and the band only,
/// not on the universe number, the parallel flag or the sign of the radius.
pub proof fn switch_ignores_other_labels(
    p: Pt,
    q: Pt,
    slowing: bool,
    spin_positive: bool,
    horizon_term_positive: bool,
)
    requires
        q.band == p.band,
        q.time_rev == p.time_rev,
    ensures
        switch_rule(q, slowing, spin_positive, horizon_term_positive) == switch_rule(
            p,
            slowing,
            spin_positive,
            horizon_term_positive,
        ),
{
}

/// While slowing, a point inside or at the inner horizon switches exactly when
/// it is future directed, one at or outside the outer horizon exactly when it is
/// past directed; elsewhere reversing any one of the spin sign, the horizon term
/// sign and the time orientation reverses the decision. Without slowing down
/// there is no switch.
pub proof fn switch_at_horizons(p: Pt, slowing: bool, spin_positive: bool, horizon_term_positive: bool)
    ensures
        !slowing ==> !switch_rule(p, slowing, spin_positive, horizon_term_positive),
        slowing && (p.band is BelowInner || p.band is AtInner) ==> switch_rule(
            p,
            slowing,
            spin_positive,
            horizon_term_positive,
        ) == !p.time_rev,
        slowing && (p.band is AtOuter || p.band is AboveOuter) ==> switch_rule(
            p,
            slowing,
            spin_positive,
            horizon_term_positive,
        ) == p.time_rev,
        slowing && (p.band is Between || p.band is Undefined) ==> switch_rule(
            p,
            slowing,
            spin_positive,
            horizon_term_positive,
        ) != switch_rule(p, slowing, !spin_positive, horizon_term_positive) && switch_rule(
            p,
            slowing,
            spin_positive,
            horizon_term_positive,
        ) != switch_rule(p, slowing, spin_positive, !horizon_term_positive) && switch_rule(
            p,
            slowing,
            spin_positive,
            horizon_term_positive,
        ) != switch_rule(
            Pt { time_rev: !p.time_rev, ..p },
            slowing,
            spin_positive,
            horizon_term_positive,
        ),
{
}

/// Away from the region between the horizons, one switch of chart is enough:
/// the flipped point is not switched again.
pub proof fn switch_settles(pt: Pt, slowing: bool, spin_positive: bool, horizon_term_positive: bool)
    requires
        pt.flip_fits(),
        pt.band.at_most_inner() || pt.band.at_least_outer(),
        switch_rule(pt, slowing, spin_positive, horizon_term_positive),
    ensures
        !switch_rule(pt.flipped(), slowing, spin_positive, horizon_term_positive),
{
}

} // verus!
