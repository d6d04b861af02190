use vstd::prelude::*;

pub mod boyer_lindquist;
pub mod kerr_schild;

verus! {

/// The six kinds of region of the maximally extended Kerr spacetime.
///
/// `Us` and `Para` lie outside the outer horizon, `AfterOuter` and `AfterInner`
/// between the two horizons, `UsSing` and `ParaSing` inside the inner horizon,
/// where the ring singularity is.
#[derive(Debug, Clone, Copy, PartialEq, Eq, Structural)]
pub enum RegionType {
    Us,
    Para,
    AfterOuter,
    AfterInner,
    UsSing,
    ParaSing,
}

/// A region: the number of the universe and the kind of region in it.
pub type Region = (i32, RegionType);

/// Where a radius lies with respect to the inner horizon `R_INNER` and the
/// outer horizon `R_OUTER` (with `R_INNER < R_OUTER`).
///
/// `Undefined` is a radius that compares neither below, at nor above any
/// value (a floating point NaN): every comparison with it is false.
#[derive(Debug, Clone, Copy, PartialEq, Eq, Structural)]
pub enum RadialBand {
    /// `r < R_INNER`
    BelowInner,
    /// `r == R_INNER`
    AtInner,
    /// `R_INNER < r < R_OUTER`
    Between,
    /// `r == R_OUTER`
    AtOuter,
    /// `R_OUTER < r`
    AboveOuter,
    /// no comparison holds
    Undefined,
}

impl RadialBand {
    /// `r < R_INNER`
    pub open spec fn below_inner(self) -> bool {
        self is BelowInner
    }

    /// `r <= R_INNER`
    pub open spec fn at_most_inner(self) -> bool {
        self is BelowInner || self is AtInner
    }

    /// `r < R_OUTER`
    pub open spec fn below_outer(self) -> bool {
        self is BelowInner || self is AtInner || self is Between
    }

    /// `r <= R_OUTER`
    pub open spec fn at_most_outer(self) -> bool {
        self.below_outer() || self is AtOuter
    }

    /// `r >= R_OUTER`
    pub open spec fn at_least_outer(self) -> bool {
        self is AtOuter || self is AboveOuter
    }

    /// `r > R_OUTER`
    pub open spec fn above_outer(self) -> bool {
        self is AboveOuter
    }

    /// `R_INNER < r < R_OUTER`
    pub open spec fn strictly_between(self) -> bool {
        self is Between
    }

    /// Whether `r <= R_INNER`.
    pub fn is_at_most_inner(self) -> (b: bool)
        ensures
            b == self.at_most_inner(),
    {
        match self {
            RadialBand::BelowInner | RadialBand::AtInner => true,
            _ => false,
        }
    }

    /// Whether `r < R_INNER`.
    pub fn is_below_inner(self) -> (b: bool)
        ensures
            b == self.below_inner(),
    {
        match self {
            RadialBand::BelowInner => true,
            _ => false,
        }
    }

    /// Whether `r < R_OUTER`.
    pub fn is_below_outer(self) -> (b: bool)
        ensures
            b == self.below_outer(),
    {
        match self {
            RadialBand::BelowInner | RadialBand::AtInner | RadialBand::Between => true,
            _ => false,
        }
    }

    /// Whether `r <= R_OUTER`.
    pub fn is_at_most_outer(self) -> (b: bool)
        ensures
            b == self.at_most_outer(),
    {
        match self {
            RadialBand::AboveOuter | RadialBand::Undefined => false,
            _ => true,
        }
    }

    /// Whether `r >= R_OUTER`.
    pub fn is_at_least_outer(self) -> (b: bool)
        ensures
            b == self.at_least_outer(),
    {
        match self {
            RadialBand::AtOuter | RadialBand::AboveOuter => true,
            _ => false,
        }
    }

    /// Whether `r > R_OUTER`.
    pub fn is_above_outer(self) -> (b: bool)
        ensures
            b == self.above_outer(),
    {
        match self {
            RadialBand::AboveOuter => true,
            _ => false,
        }
    }

    /// Whether `R_INNER < r < R_OUTER`.
    pub fn is_strictly_between(self) -> (b: bool)
        ensures
            b == self.strictly_between(),
    {
        match self {
            RadialBand::Between => true,
            _ => false,
        }
    }
}

} // verus!
