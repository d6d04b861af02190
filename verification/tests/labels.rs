use kerr_geodesic::coordinates::boyer_lindquist::{self, orientation_reversed};
use kerr_geodesic::coordinates::kerr_schild::{step_verdict, ChartTracker, Pt, StepVerdict};
use kerr_geodesic::coordinates::{RadialBand, RegionType};

fn pt(base: i32, parallel: bool, time_rev: bool, band: RadialBand) -> Pt {
    Pt::new(base, parallel, time_rev, false, band)
}

#[test]
fn ks_region_each_band() {
    assert_eq!(pt(3, false, false, RadialBand::BelowInner).region(), (3, RegionType::ParaSing));
    assert_eq!(pt(3, true, true, RadialBand::AtInner).region(), (2, RegionType::UsSing));
    assert_eq!(pt(3, true, false, RadialBand::Between).region(), (3, RegionType::AfterOuter));
    assert_eq!(pt(3, false, true, RadialBand::AtOuter).region(), (2, RegionType::AfterInner));
    assert_eq!(pt(3, true, true, RadialBand::AboveOuter).region(), (3, RegionType::Para));
    assert_eq!(pt(3, false, true, RadialBand::Undefined).region(), (3, RegionType::Us));
}

#[test]
fn ks_flip_each_band() {
    assert_eq!(pt(0, false, false, RadialBand::BelowInner).flip(), pt(1, false, true, RadialBand::BelowInner));
    assert_eq!(pt(0, true, true, RadialBand::AtInner).flip(), pt(-1, true, false, RadialBand::AtInner));
    assert_eq!(pt(0, false, true, RadialBand::Between).flip(), pt(0, true, true, RadialBand::Between));
    assert_eq!(pt(0, true, false, RadialBand::AtOuter).flip(), pt(0, true, true, RadialBand::AtOuter));
    assert_eq!(pt(7, false, true, RadialBand::AboveOuter).flip(), pt(7, false, false, RadialBand::AboveOuter));
    let p = Pt::new(7, false, true, true, RadialBand::Undefined);
    assert_eq!(p.flip(), Pt::new(7, false, false, true, RadialBand::Undefined));
}

#[test]
fn flip_changes_region_on_outer_horizon() {
    let p = pt(0, false, false, RadialBand::AtOuter);
    assert_eq!(p.region(), (0, RegionType::AfterOuter));
    assert_eq!(p.flip().region(), (-1, RegionType::AfterInner));
}

#[test]
fn flip_twice_is_identity_concrete() {
    let p = Pt::new(-2, true, false, true, RadialBand::BelowInner);
    assert_eq!(p.flip().flip(), p);
}

#[test]
fn nudge_sign_of_radius() {
    let p = Pt::new(0, false, false, false, RadialBand::BelowInner);
    assert!(p.nudged_radius_rev(true, true));
    assert!(!p.nudged_radius_rev(true, false));
    assert!(!p.nudged_radius_rev(false, true));
    let q = Pt::new(0, false, false, true, RadialBand::BelowInner);
    assert!(!q.nudged_radius_rev(true, true));
    assert!(q.nudged_radius_rev(false, false));
}

#[test]
fn bl_region_each_band() {
    let bl = |shift: bool, band: RadialBand| boyer_lindquist::Pt { base: 4, radius_rev: false, shift, band };
    assert_eq!(bl(true, RadialBand::BelowInner).region(), (4, RegionType::UsSing));
    assert_eq!(bl(false, RadialBand::AtInner).region(), (4, RegionType::AfterOuter));
    assert_eq!(bl(true, RadialBand::Between).region(), (4, RegionType::AfterInner));
    assert_eq!(bl(true, RadialBand::AtOuter).region(), (4, RegionType::Para));
    assert_eq!(bl(false, RadialBand::AboveOuter).region(), (4, RegionType::Us));
    assert_eq!(bl(false, RadialBand::Undefined).region(), (4, RegionType::Us));
}

#[test]
fn bl_from_kerr_schild_concrete() {
    let p = Pt::new(5, true, true, true, RadialBand::Between);
    let b = boyer_lindquist::Pt::from_kerr_schild(p);
    assert_eq!(b, boyer_lindquist::Pt { base: 4, radius_rev: true, shift: true, band: RadialBand::Between });
    let q = Pt::new(5, true, false, false, RadialBand::BelowInner);
    let c = boyer_lindquist::Pt::from_kerr_schild(q);
    assert_eq!(c, boyer_lindquist::Pt { base: 5, radius_rev: false, shift: true, band: RadialBand::BelowInner });
    let o = Pt::new(5, false, true, false, RadialBand::AboveOuter);
    assert_eq!(boyer_lindquist::Pt::from_kerr_schild(o).base, 5);
    assert!(!boyer_lindquist::Pt::from_kerr_schild(o).shift);
}

#[test]
fn bl_region_differs_on_inner_horizon() {
    let p = pt(0, true, false, RadialBand::AtInner);
    assert_eq!(p.region(), (0, RegionType::UsSing));
    assert_eq!(boyer_lindquist::Pt::from_kerr_schild(p).region(), (0, RegionType::AfterOuter));
}

#[test]
fn bl_labels_of_flip_concrete() {
    let p = pt(2, false, true, RadialBand::BelowInner);
    assert_eq!(
        boyer_lindquist::Pt::from_kerr_schild(p),
        boyer_lindquist::Pt::from_kerr_schild(p.flip())
    );
}

#[test]
fn orientation_flag() {
    assert!(orientation_reversed(pt(0, true, false, RadialBand::Between)));
    assert!(orientation_reversed(pt(0, false, true, RadialBand::Between)));
    assert!(!orientation_reversed(pt(0, true, true, RadialBand::Between)));
    assert!(!orientation_reversed(pt(0, false, false, RadialBand::Between)));
}

#[test]
fn step_verdicts() {
    assert_eq!(step_verdict(true, true), StepVerdict::Accept);
    assert_eq!(step_verdict(true, false), StepVerdict::Accept);
    assert_eq!(step_verdict(false, true), StepVerdict::Abort);
    assert_eq!(step_verdict(false, false), StepVerdict::Retry);
}

#[test]
fn chart_switching() {
    let mut t = ChartTracker::new();
    assert!(!t.flipped);
    // not slowing down: never switch
    assert!(!t.begin_step(pt(0, false, false, RadialBand::BelowInner), false, true, true));
    assert!(!t.flipped);
    // inside the inner horizon, future directed
    let inner = pt(0, false, false, RadialBand::BelowInner);
    assert!(t.begin_step(inner, true, true, true));
    assert!(t.flipped);
    // the flipped point is past directed and stays
    assert!(!t.begin_step(inner.flip(), true, true, true));
    assert!(t.flipped);
    // at the outer horizon, past directed
    assert!(t.begin_step(pt(0, false, true, RadialBand::AtOuter), true, false, false));
    assert!(!t.flipped);
    assert!(!t.begin_step(pt(0, false, false, RadialBand::AboveOuter), true, false, false));
    // between the horizons: parity of the three signs
    assert!(!t.begin_step(pt(0, false, false, RadialBand::Between), true, true, true));
    assert!(t.begin_step(pt(0, false, false, RadialBand::Between), true, true, false));
    assert!(t.begin_step(pt(0, false, true, RadialBand::Between), true, true, true));
    assert!(t.begin_step(pt(0, false, false, RadialBand::Undefined), true, false, true));
    assert!(t.flipped);
}
