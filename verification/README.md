# kerr_geodesic

Geodesics in the maximally extended Kerr spacetime, integrated in Kerr–Schild
charts that are flipped whenever the geodesic approaches a horizon.

- `src/` is the verified library: the exact part of the chart bookkeeping.
  `coordinates` defines the region kinds and the band of a radius relative to
  the two horizons; `coordinates::kerr_schild` the labels of a Kerr–Schild
  point, their region and their flip, and the integrator's decisions (when to
  switch chart, what to do with a trial step); `coordinates::boyer_lindquist`
  the Boyer–Lindquist labels and their conversion from Kerr–Schild labels.
  The laws (a flip keeps the region, flipping twice is the identity, the
  conversion keeps the region and ignores flips, one switch settles the chart)
  are proof functions beside the code.
- `app/` is the program: all floating point work (coordinates, metric,
  covectors, derivatives of the flip, the Runge–Kutta–Fehlberg integrator)
  and the output. It hands the library the comparisons of radii with the
  horizons as a `RadialBand`.
- `tests/` runs the library on random and on hand-picked labels.
