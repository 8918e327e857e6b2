use hydrogen_orbitals::factorial::factorial;
use hydrogen_orbitals::quantum::{current_direction, degeneracy, Orbital};

#[test]
fn factorial_of_small_numbers() {
    assert_eq!(factorial(0), Some(1));
    assert_eq!(factorial(1), Some(1));
    assert_eq!(factorial(5), Some(120));
    assert_eq!(factorial(11), Some(39_916_800));
}

#[test]
fn factorial_past_u64() {
    assert_eq!(factorial(20), Some(2_432_902_008_176_640_000));
    assert_eq!(factorial(21), Some(51_090_942_171_709_440_000));
    assert_eq!(factorial(22), Some(1_124_000_727_777_607_680_000));
}

#[test]
fn factorial_at_the_edge_of_u128() {
    assert_eq!(factorial(34), Some(295_232_799_039_604_140_847_618_609_643_520_000_000));
    assert_eq!(factorial(35), None);
    assert_eq!(factorial(u32::MAX), None);
}

fn product(v: &[u64]) -> u128 {
    v.iter().map(|&x| x as u128).product()
}

#[test]
fn new_records_the_numbers() {
    let o = Orbital::new(3, 2, -1, true);
    assert_eq!((o.n, o.l, o.m, o.m_abs, o.real_form), (3, 2, -1, 1, true));
}

#[test]
fn radial_normalisation_of_1s() {
    // R_10 = 2 e^{-r}: the square of the constant is 4.
    let r = Orbital::new(1, 0, 0, false).radial_norm_sq();
    assert_eq!(r.num, vec![4]);
    assert_eq!(r.den, vec![1, 1, 1, 1, 1]);
}

#[test]
fn radial_normalisation_of_2p() {
    // R_21 = r e^{-r/2} / √24: the square of the constant is 1/24.
    let r = Orbital::new(2, 1, 0, false).radial_norm_sq();
    assert_eq!(r.num, vec![4]);
    assert_eq!(r.den, vec![2, 2, 2, 2, 1, 2, 3]);
    assert_eq!(product(&r.den) / product(&r.num), 24);
}

#[test]
fn radial_normalisation_of_6h() {
    // 4 · 0! / (6⁴ · 11!)
    let r = Orbital::new(6, 5, 0, false).radial_norm_sq();
    assert_eq!(product(&r.num), 4);
    assert_eq!(product(&r.den), 1296 * 39_916_800);
}

#[test]
fn radial_normalisation_of_large_n() {
    // n + l = 99: far past any machine factorial, still exact as factors.
    let r = Orbital::new(50, 49, 0, false).radial_norm_sq();
    assert_eq!(r.num, vec![4]);
    assert_eq!(r.den.len(), 4 + 99);
    assert_eq!(&r.den[..4], &[50, 50, 50, 50]);
    assert_eq!(r.den[4..], (1..=99).collect::<Vec<u64>>()[..]);
    let r = Orbital::new(15, 7, 0, false).radial_norm_sq();
    assert_eq!(r.den[4..], (8..=22).collect::<Vec<u64>>()[..]);
}

#[test]
fn angular_normalisation() {
    let a = Orbital::new(1, 0, 0, false).angular_norm_sq();
    assert_eq!((a.num, a.den), (vec![1], vec![]));
    let a = Orbital::new(2, 1, 1, false).angular_norm_sq();
    assert_eq!((a.num, a.den), (vec![3], vec![1, 2]));
    // 7 · 1! / 5! = 7 / 120
    let a = Orbital::new(4, 3, -2, false).angular_norm_sq();
    assert_eq!((a.num, a.den), (vec![7], vec![2, 3, 4, 5]));
}

#[test]
fn angular_normalisation_of_large_l() {
    // 41 · 15! / 25!
    let a = Orbital::new(30, 20, 5, false).angular_norm_sq();
    assert_eq!(a.num, vec![41]);
    assert_eq!(a.den, (16..=25).collect::<Vec<u64>>());
}

#[test]
fn node_counts() {
    let o = Orbital::new(4, 2, 1, false);
    assert_eq!((o.radial_nodes(), o.nodal_cones(), o.nodal_planes()), (1, 1, 0));
    let o = Orbital::new(4, 2, -1, true);
    assert_eq!((o.radial_nodes(), o.nodal_cones(), o.nodal_planes()), (1, 1, 1));
    assert_eq!(o.radial_nodes() + o.nodal_cones() + o.nodal_planes(), 3);
    let o = Orbital::new(3, 0, 0, true);
    assert_eq!((o.radial_nodes(), o.nodal_cones(), o.nodal_planes()), (2, 0, 0));
}

#[test]
fn mean_radius() {
    // <r> = (3n² − l(l+1))/2: 1.5 a₀ for 1s, 5 a₀ for 2p.
    assert_eq!(Orbital::new(1, 0, 0, false).mean_radius_doubled(), 3);
    assert_eq!(Orbital::new(2, 1, 0, false).mean_radius_doubled(), 10);
    assert_eq!(Orbital::new(6, 5, 0, false).mean_radius_doubled(), 78);
}

#[test]
fn degeneracy_of_the_levels() {
    assert_eq!(degeneracy(1), 1);
    assert_eq!(degeneracy(4), 16);
    assert_eq!(degeneracy(65535), 4_294_836_225);
    // Level 3 holds one s, three p and five d states.
    let mut count = 0;
    for l in 0..3i32 {
        for _m in -l..=l {
            count += 1;
        }
    }
    assert_eq!(count, degeneracy(3));
}

#[test]
fn direction_of_the_current() {
    assert_eq!(current_direction(2, false), 1);
    assert_eq!(current_direction(-3, false), -1);
    assert_eq!(current_direction(0, false), 0);
    assert_eq!(current_direction(2, true), 0);
}
