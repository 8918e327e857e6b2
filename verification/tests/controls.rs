use hydrogen_orbitals::controls::{constrain, FrameControls, Viewer, VisuMode, Work};

fn input(n: u32, l: i32, m: i32) -> FrameControls {
    FrameControls {
        n,
        l,
        m,
        real_form: false,
        superposition: false,
        mode: VisuMode::Density,
        play_pressed: false,
        reset_pressed: false,
        clip_moved: false,
        redraw: false,
    }
}

#[test]
fn constrain_clamps_l_then_m() {
    assert_eq!(constrain(3, 5, -7), (2, -2));
    assert_eq!(constrain(1, 4, 4), (0, 0));
    assert_eq!(constrain(4, -1, 1), (0, 0));
    assert_eq!(constrain(6, 3, -2), (3, -2));
}

#[test]
fn first_frame_draws_points() {
    let mut v = Viewer::new();
    let out = v.step(input(1, 0, 0));
    assert_eq!(out.work, Work::Regenerate);
    assert!(out.redraw);
    assert!(!out.reset_clock && !out.advance_clock);
    assert!(v.started);
}

#[test]
fn quiet_frame_does_nothing() {
    let mut v = Viewer::new();
    v.step(input(2, 1, 1));
    let before = v;
    let out = v.step(input(2, 1, 1));
    assert_eq!(out.work, Work::Nothing);
    assert!(!out.redraw);
    assert_eq!(v, before);
}

#[test]
fn lowering_n_clamps_and_resamples() {
    let mut v = Viewer::new();
    v.step(input(4, 3, -3));
    let out = v.step(input(2, 3, -3));
    assert_eq!(out.work, Work::Regenerate);
    assert_eq!((v.n, v.l, v.m), (2, 1, -1));
}

#[test]
fn clamping_to_the_same_state_does_not_resample() {
    let mut v = Viewer::new();
    v.step(input(2, 1, 1));
    let out = v.step(input(2, 5, 9));
    assert_eq!(out.work, Work::Nothing);
}

#[test]
fn superposition_resets_and_starts_the_beat() {
    let mut v = Viewer::new();
    v.step(input(1, 0, 0));
    let mut i = input(1, 0, 0);
    i.superposition = true;
    let out = v.step(i);
    assert_eq!(out.work, Work::Regenerate);
    assert!(out.reset_clock && out.advance_clock && out.redraw);
    assert!(v.animating);
    let out = v.step(i);
    assert_eq!(out.work, Work::Rebuild);
    assert!(!out.reset_clock && out.advance_clock);
}

#[test]
fn current_mode_starts_motion() {
    let mut v = Viewer::new();
    v.step(input(2, 1, 1));
    let mut i = input(2, 1, 1);
    i.mode = VisuMode::ProbCurrent;
    let out = v.step(i);
    assert_eq!(out.work, Work::Rebuild);
    assert!(out.advance_clock && v.animating);
}

#[test]
fn density_does_not_animate() {
    let mut v = Viewer::new();
    v.step(input(2, 1, 1));
    let mut i = input(2, 1, 1);
    i.play_pressed = true;
    let out = v.step(i);
    assert!(v.animating);
    assert!(!out.advance_clock);
    assert_eq!(out.work, Work::Nothing);
}

#[test]
fn phase_mode_animates_after_play() {
    let mut v = Viewer::new();
    let mut i = input(3, 2, 1);
    i.mode = VisuMode::WavePhase;
    v.step(i);
    let out = v.step(i);
    assert_eq!(out.work, Work::Nothing);
    i.play_pressed = true;
    let out = v.step(i);
    assert!(out.advance_clock);
    assert_eq!(out.work, Work::Rebuild);
    let out = v.step(i);
    assert!(!v.animating && !out.advance_clock);
}

#[test]
fn reset_and_clipping_rebuild() {
    let mut v = Viewer::new();
    v.step(input(1, 0, 0));
    let mut i = input(1, 0, 0);
    i.reset_pressed = true;
    let out = v.step(i);
    assert_eq!(out.work, Work::Rebuild);
    assert!(out.reset_clock);
    let mut i = input(1, 0, 0);
    i.clip_moved = true;
    let out = v.step(i);
    assert_eq!(out.work, Work::Rebuild);
    assert!(!out.reset_clock && out.redraw);
}

#[test]
fn switching_the_form_resamples() {
    let mut v = Viewer::new();
    v.step(input(2, 1, 1));
    let mut i = input(2, 1, 1);
    i.real_form = true;
    assert_eq!(v.step(i).work, Work::Regenerate);
}

#[test]
fn outside_redraw_is_passed_on() {
    let mut v = Viewer::new();
    v.step(input(1, 0, 0));
    let mut i = input(1, 0, 0);
    i.redraw = true;
    let out = v.step(i);
    assert_eq!(out.work, Work::Nothing);
    assert!(out.redraw);
}
