//! The viewer's per-frame decisions: which quantum numbers the controls may
//! hold, when the point cloud must be sampled again, when it only has to be
//! rebuilt from the points already drawn, and when the animation clock runs.
//! The caller does the drawing, the sampling and the clock arithmetic.

use vstd::prelude::*;

use crate::quantum::valid_numbers;

verus! {

/// What the colour of a point shows.
#[derive(Clone, Copy, Debug, PartialEq, Eq, Structural)]
pub enum VisuMode {
    /// Probability density `|ψ|²`.
    Density,
    /// Phase `arg ψ`.
    WavePhase,
    /// Probability current `j`.
    ProbCurrent,
}

/// `x` clamped into `[lo, hi]`.
pub open spec fn clamp(x: int, lo: int, hi: int) -> int {
    if x < lo {
        lo
    } else if x > hi {
        hi
    } else {
        x
    }
}

/// The `l` the controls keep for `n`: clamped into `[0, n − 1]`.
pub open spec fn constrained_l(n: int, l: int) -> int {
    clamp(l, 0, n - 1)
}

/// The `m` the controls keep for `n`: clamped into `[−l, l]` for the kept `l`.
pub open spec fn constrained_m(n: int, l: int, m: int) -> int {
    let l2 = constrained_l(n, l);
    clamp(m, -l2, l2)
}

/// Brings `(l, m)` back among the states of level `n`: `l` into `[0, n − 1]`,
/// then `m` into `[−l, l]`.
pub fn constrain(n: u32, l: i32, m: i32) -> (r: (i32, i32))
    requires
        1 <= n <= i32::MAX,
    ensures
        r.0 == constrained_l(n as int, l as int),
        r.1 == constrained_m(n as int, l as int, m as int),
        valid_numbers(n as int, r.0 as int, r.1 as int),
        l < 0 ==> r.0 == 0,
        l > n - 1 ==> r.0 == n - 1,
        0 <= l <= n - 1 ==> r.0 == l,
        m < -r.0 ==> r.1 == -r.0,
        m > r.0 ==> r.1 == r.0,
        -r.0 <= m <= r.0 ==> r.1 == m,
{
    let top: i32 = n as i32 - 1;
    let l2: i32 = if l < 0 {
        0
    } else if l > top {
        top
    } else {
        l
    };
    let m2: i32 = if m < -l2 {
        -l2
    } else if m > l2 {
        l2
    } else {
        m
    };
    (l2, m2)
}

/// `l` moves to the nearest admissible value in `[0, n − 1]`, and `m` to the
/// nearest in `[−l, l]` for that `l`.
pub proof fn lemma_constrain_nearest(n: int, l: int, m: int)
    requires
        n >= 1,
    ensures
        l < 0 ==> constrained_l(n, l) == 0,
        l > n - 1 ==> constrained_l(n, l) == n - 1,
        0 <= l <= n - 1 ==> constrained_l(n, l) == l,
        ({
            let l2 = constrained_l(n, l);
            &&& m < -l2 ==> constrained_m(n, l, m) == -l2
            &&& m > l2 ==> constrained_m(n, l, m) == l2
            &&& -l2 <= m <= l2 ==> constrained_m(n, l, m) == m
        }),
{
}

/// Constraining is idempotent, and leaves the numbers of a bound state as
/// they are.
pub proof fn lemma_constrain_keeps_valid(n: int, l: int, m: int)
    requires
        n >= 1,
    ensures
        valid_numbers(n, l, m) ==> constrained_l(n, l) == l && constrained_m(n, l, m) == m,
        constrained_l(n, constrained_l(n, l)) == constrained_l(n, l),
        constrained_m(n, constrained_l(n, l), constrained_m(n, l, m)) == constrained_m(n, l, m),
{
}


// ── Frame decisions ──────────────────────────────────────────────────────────

/// What the controls hold at the end of a frame's user interface: the values
/// of the sliders and radio buttons, and which buttons were pressed.
#[derive(Clone, Copy, Debug, PartialEq, Eq, Structural)]
pub struct FrameControls {
    pub n: u32,
    pub l: i32,
    pub m: i32,
    pub real_form: bool,
    pub superposition: bool,
    pub mode: VisuMode,
    /// The play/pause button was pressed.
    pub play_pressed: bool,
    /// The reset button was pressed.
    pub reset_pressed: bool,
    /// One of the clipping angles moved enough to matter.
    pub clip_moved: bool,
    /// The window, the camera or the panels ask for a redraw anyway.
    pub redraw: bool,
}

/// The work a frame asks of the caller for the point cloud.
#[derive(Clone, Copy, Debug, PartialEq, Eq, Structural)]
pub enum Work {
    /// Keep the instances as they are.
    Nothing,
    /// Rebuild the instances from the points already drawn.
    Rebuild,
    /// Draw new points for the current state and rebuild from them.
    Regenerate,
}

/// What the caller does in this frame.
#[derive(Clone, Copy, Debug, PartialEq, Eq, Structural)]
pub struct FrameDecision {
    pub work: Work,
    /// Set the animation clock back to zero (before advancing it).
    pub reset_clock: bool,
    /// Advance the animation clock by the frame's time times the speed.
    pub advance_clock: bool,
    /// Render the frame.
    pub redraw: bool,
}

/// The state the viewer keeps between frames: what the point cloud was last
/// drawn for, the colour mode it was last built in, whether the animation
/// runs, and whether any cloud was drawn yet.
#[derive(Clone, Copy, Debug, PartialEq, Eq, Structural)]
pub struct Viewer {
    pub n: u32,
    pub l: i32,
    pub m: i32,
    pub real_form: bool,
    pub superposition: bool,
    pub mode: VisuMode,
    pub animating: bool,
    pub started: bool,
}

/// Whether the animation runs after this frame's buttons and switches: play
/// toggles it; turning the superposition on or switching to the current
/// mode starts it.
pub open spec fn animating_after(v: Viewer, i: FrameControls) -> bool {
    let toggled = if i.play_pressed {
        !v.animating
    } else {
        v.animating
    };
    ||| toggled
    ||| (i.superposition && !v.superposition)
    ||| (i.mode != v.mode && i.mode == VisuMode::ProbCurrent)
}

/// Whether the picture moves with time in this frame: the animation runs and
/// the superposition or a time-dependent colour mode is shown.
pub open spec fn animates(v: Viewer, i: FrameControls) -> bool {
    animating_after(v, i) && (i.superposition || i.mode != VisuMode::Density)
}

/// Whether new points must be drawn: nothing was drawn yet, or the quantum
/// numbers (as constrained), the form or the superposition changed.
pub open spec fn needs_sampling(v: Viewer, i: FrameControls) -> bool {
    ||| !v.started
    ||| i.n != v.n
    ||| constrained_l(i.n as int, i.l as int) != v.l
    ||| constrained_m(i.n as int, i.l as int, i.m as int) != v.m
    ||| i.real_form != v.real_form
    ||| i.superposition != v.superposition
}

/// Whether the instances must be rebuilt from the points already drawn.
pub open spec fn needs_rebuild(v: Viewer, i: FrameControls) -> bool {
    ||| i.reset_pressed
    ||| i.mode != v.mode
    ||| i.clip_moved
    ||| animates(v, i)
}

/// The caller's work for a frame.
pub open spec fn frame_output(v: Viewer, i: FrameControls) -> FrameDecision {
    FrameDecision {
        work: if needs_sampling(v, i) {
            Work::Regenerate
        } else if needs_rebuild(v, i) {
            Work::Rebuild
        } else {
            Work::Nothing
        },
        reset_clock: i.reset_pressed || (i.superposition && !v.superposition),
        advance_clock: animates(v, i),
        redraw: i.redraw || animates(v, i) || needs_sampling(v, i) || needs_rebuild(v, i),
    }
}

/// The state after a frame: the constrained numbers and the switches as they
/// now stand, and whether the animation runs.
pub open spec fn next_viewer(v: Viewer, i: FrameControls) -> Viewer {
    Viewer {
        n: i.n,
        l: constrained_l(i.n as int, i.l as int) as i32,
        m: constrained_m(i.n as int, i.l as int, i.m as int) as i32,
        real_form: i.real_form,
        superposition: i.superposition,
        mode: i.mode,
        animating: animating_after(v, i),
        started: true,
    }
}

impl Viewer {
    /// The numbers it holds are those of a bound state.
    pub open spec fn wf(self) -> bool {
        valid_numbers(self.n as int, self.l as int, self.m as int)
    }

    /// The viewer before the first frame: the 1s orbital in its complex form,
    /// density colours, no animation, nothing drawn yet.
    pub fn new() -> (v: Viewer)
        ensures
            v.wf(),
            v == (Viewer {
                n: 1,
                l: 0,
                m: 0,
                real_form: false,
                superposition: false,
                mode: VisuMode::Density,
                animating: false,
                started: false,
            }),
    {
        Viewer {
            n: 1,
            l: 0,
            m: 0,
            real_form: false,
            superposition: false,
            mode: VisuMode::Density,
            animating: false,
            started: false,
        }
    }

    /// Decides one frame from the controls as the user left them.
    pub fn step(&mut self, input: FrameControls) -> (out: FrameDecision)
        requires
            1 <= input.n <= i32::MAX,
        ensures
            out == frame_output(*old(self), input),
            *final(self) == next_viewer(*old(self), input),
            final(self).wf(),
            old(self).started && out.work != Work::Regenerate ==> {
                &&& final(self).n == old(self).n
                &&& final(self).l == old(self).l
                &&& final(self).m == old(self).m
                &&& final(self).real_form == old(self).real_form
                &&& final(self).superposition == old(self).superposition
            },
            !old(self).started ==> out.work == Work::Regenerate,
            input.mode != old(self).mode ==> out.work != Work::Nothing && out.redraw,
            input.reset_pressed || input.clip_moved ==> out.work != Work::Nothing && out.redraw,
    {
        let (l2, m2) = constrain(input.n, input.l, input.m);
        let sampling = !self.started || input.n != self.n || l2 != self.l || m2 != self.m
            || input.real_form != self.real_form || input.superposition != self.superposition;
        let superposition_on = input.superposition && !self.superposition;
        let mode_changed = input.mode != self.mode;
        let mut animating = if input.play_pressed {
            !self.animating
        } else {
            self.animating
        };
        if superposition_on {
            animating = true;
        }
        if mode_changed && input.mode == VisuMode::ProbCurrent {
            animating = true;
        }
        let moving = animating && (input.superposition || input.mode != VisuMode::Density);
        let rebuild = input.reset_pressed || mode_changed || input.clip_moved || moving;
        let work = if sampling {
            Work::Regenerate
        } else if rebuild {
            Work::Rebuild
        } else {
            Work::Nothing
        };
        let out = FrameDecision {
            work,
            reset_clock: input.reset_pressed || superposition_on,
            advance_clock: moving,
            redraw: input.redraw || moving || sampling || rebuild,
        };
        *self = Viewer {
            n: input.n,
            l: l2,
            m: m2,
            real_form: input.real_form,
            superposition: input.superposition,
            mode: input.mode,
            animating,
            started: true,
        };
        out
    }
}

/// The input that leaves a frame's controls as the viewer already holds them,
/// with no button pressed and the clipping untouched.
pub open spec fn quiet_input(v: Viewer, redraw: bool) -> FrameControls {
    FrameControls {
        n: v.n,
        l: v.l,
        m: v.m,
        real_form: v.real_form,
        superposition: v.superposition,
        mode: v.mode,
        play_pressed: false,
        reset_pressed: false,
        clip_moved: false,
        redraw,
    }
}

/// Once a frame has been decided, a frame in which nothing is touched draws
/// no new points and does not reset the clock; it rebuilds exactly when the
/// picture moves with time, and leaves the state as it is.
pub proof fn lemma_quiet_frame(v: Viewer, i: FrameControls, redraw: bool)
    requires
        1 <= i.n <= i32::MAX,
    ensures
        ({
            let w = next_viewer(v, i);
            let o = frame_output(w, quiet_input(w, redraw));
            &&& o.work != Work::Regenerate
            &&& (o.work == Work::Rebuild) == animates(w, quiet_input(w, redraw))
            &&& !o.reset_clock
            &&& next_viewer(w, quiet_input(w, redraw)) == w
        }),
{
    let l2 = constrained_l(i.n as int, i.l as int);
    let m2 = constrained_m(i.n as int, i.l as int, i.m as int);
    lemma_constrain_keeps_valid(i.n as int, i.l as int, i.m as int);
    assert(valid_numbers(i.n as int, l2, m2));
    lemma_constrain_keeps_valid(i.n as int, l2, m2);
}

/// The cloud on screen always belongs to the state the viewer records: once
/// a cloud was drawn, a frame that draws no new points leaves `n`, `l`, `m`,
/// the form and the superposition as they were; any change of them, after
/// the controls are constrained, draws new points.
pub proof fn lemma_cloud_matches_state(v: Viewer, i: FrameControls)
    requires
        1 <= i.n <= i32::MAX,
    ensures
        v.started && frame_output(v, i).work != Work::Regenerate ==> {
            let w = next_viewer(v, i);
            &&& w.n == v.n
            &&& w.l == v.l
            &&& w.m == v.m
            &&& w.real_form == v.real_form
            &&& w.superposition == v.superposition
        },
        !v.started ==> frame_output(v, i).work == Work::Regenerate,
{
    lemma_constrain_nearest(i.n as int, i.l as int, i.m as int);
}

/// A change of colour mode, a press of reset or a moved clipping slider
/// always refreshes the instances and redraws.
pub proof fn lemma_changes_refresh(v: Viewer, i: FrameControls)
    ensures
        i.mode != v.mode || i.reset_pressed || i.clip_moved ==> frame_output(v, i).work
            != Work::Nothing && frame_output(v, i).redraw,
{
}

/// Turning the superposition on draws its points, sets the clock to zero and
/// starts the beat in the same frame.
pub proof fn lemma_superposition_starts_beat(v: Viewer, i: FrameControls)
    requires
        !v.superposition,
        i.superposition,
    ensures
        frame_output(v, i).work == Work::Regenerate,
        frame_output(v, i).reset_clock,
        frame_output(v, i).advance_clock,
        next_viewer(v, i).animating,
{
}

/// Switching to the current mode sets the particles moving without the play
/// button, and only rebuilds the cloud when the state is otherwise unchanged.
pub proof fn lemma_current_mode_moves(v: Viewer, i: FrameControls)
    requires
        v.mode != VisuMode::ProbCurrent,
        i.mode == VisuMode::ProbCurrent,
    ensures
        frame_output(v, i).advance_clock,
        next_viewer(v, i).animating,
        !needs_sampling(v, i) ==> frame_output(v, i).work == Work::Rebuild,
{
}

/// The density of a single eigenstate does not depend on time: without the
/// superposition, the density mode never advances the clock.
pub proof fn lemma_density_is_static(v: Viewer, i: FrameControls)
    requires
        !i.superposition,
        i.mode == VisuMode::Density,
    ensures
        !frame_output(v, i).advance_clock,
{
}

} // verus!
