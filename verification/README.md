# hsrn

Core of the Hermes Space Relay Network mission software, verified with Verus.

- `src/` — the verified library: time acceleration and its overflow
  validation (`time`), contact windows from line-of-sight samples
  (`contact`), line-of-sight verdicts (`visibility`), Lagrange point
  designations (`lagrange`) and mission errors (`error`).
- `app/` — the floating-point orbital mechanics (Julian dates, coordinate
  frames, Keplerian propagation, ephemeris, Lagrange point positions,
  occultation geometry), logging, `serde`/`thiserror` forms of the library
  types, and the entry points of the mission control and satellite programs.
- `tests/` — tests of the library.
