//! Chart bookkeeping for geodesics in the maximally extended Kerr spacetime.
//!
//! A point of the extended spacetime is named by a coordinate chart (Kerr–Schild
//! or Boyer–Lindquist) together with discrete labels: which universe the chart
//! is based in, and which of the two pieces of that universe it covers. This
//! crate holds the part of the bookkeeping that is exact: which region a point
//! lies in, how the labels change when the chart is flipped, how they carry over
//! from Kerr–Schild to Boyer–Lindquist labels, and when the integrator switches
//! charts. Every comparison of the (floating point) radius with the two horizons
//! reaches this crate as a `RadialBand`.

pub mod coordinates;
