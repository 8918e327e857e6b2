# hydrogen_orbitals

An interactive 3D viewer of hydrogen atom orbitals, built around a small
library verified with Verus.

- `src/` — the verified library:
  - `factorial` — `n!` on `u128` (every `n` up to 34), `None` exactly when it
    overflows; products of runs of consecutive factors;
  - `quantum` — quantum numbers `(n, l, m)` of a bound state, the exact
    fractions of the radial and angular normalisation constants (kept as
    lists of factors, for every bound state), node counts,
    the mean radius, the degeneracy `n²` (proved equal to the number of
    states of a level) and the direction of the probability current;
  - `naming` — subshell letters in spectroscopic notation (`s p d f g h i k …`), the chemists' suffixes of the real
    orbitals (`p_x`, `d_xy`, ...) and the full label of an orbital;
  - `text` — decimal numerals appended to strings;
  - `sampling` — how the Monte-Carlo points are shared between threads
    (the shares add up to the total), and the count each worker keeps of its
    draws (at most its share, at most `300 ×` its share attempts);
  - `controls` — the per-frame decisions of the viewer: constraining the
    sliders, when to draw new points, when to rebuild the instances, and when
    the animation clock runs.
- `app/` — the program: floating-point wavefunctions, rejection sampling with
  `rand`, colours, and drawing with `three-d`, `egui` and `egui_plot`.
- `tests/` — tests of the library on concrete values.
