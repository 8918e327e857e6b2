use hydrogen_orbitals::naming::{orbital_label, real_orbital_suffix, subshell_letter};

#[test]
fn letters_of_the_first_subshells() {
    assert_eq!(subshell_letter(0), 's');
    assert_eq!(subshell_letter(1), 'p');
    assert_eq!(subshell_letter(2), 'd');
    assert_eq!(subshell_letter(3), 'f');
}

#[test]
fn letters_follow_spectroscopic_notation() {
    let letters: String = (0..=20).map(subshell_letter).collect();
    assert_eq!(letters, "spdfghiklmnoqrtuvwxyz");
    assert_eq!(subshell_letter(7), 'k');
    assert_eq!(subshell_letter(12), 'q');
    assert_eq!(subshell_letter(14), 't');
}

#[test]
fn letters_past_z() {
    assert_eq!(subshell_letter(21), 'x');
    assert_eq!(subshell_letter(22), 'y');
    assert_eq!(subshell_letter(156), '\u{ff}');
    assert_eq!(subshell_letter(260), 'g');
}

#[test]
fn letters_of_negative_l() {
    assert_eq!(subshell_letter(-100), '\u{ff}');
    assert_eq!(subshell_letter(-252), 'g');
}

#[test]
fn suffixes_of_p_and_d() {
    assert_eq!(real_orbital_suffix(1, 0), Some("z"));
    assert_eq!(real_orbital_suffix(1, 1), Some("x"));
    assert_eq!(real_orbital_suffix(1, -1), Some("y"));
    assert_eq!(real_orbital_suffix(2, 2), Some("x²−y²"));
    assert_eq!(real_orbital_suffix(2, -2), Some("xy"));
}

#[test]
fn suffixes_of_f() {
    assert_eq!(real_orbital_suffix(3, 3), Some("x(x²−3y²)"));
    assert_eq!(real_orbital_suffix(3, -3), Some("y(3x²−y²)"));
    assert_eq!(real_orbital_suffix(3, 2), Some("z(x²−y²)"));
}

#[test]
fn no_suffix_outside_the_table() {
    assert_eq!(real_orbital_suffix(0, 0), None);
    assert_eq!(real_orbital_suffix(4, 0), None);
    assert_eq!(real_orbital_suffix(2, 3), None);
}

#[test]
fn label_of_s_orbitals() {
    assert_eq!(orbital_label(1, 0, 0, false), "1s");
    assert_eq!(orbital_label(3, 0, 0, true), "3s");
}

#[test]
fn label_of_complex_eigenstates() {
    assert_eq!(orbital_label(2, 1, 1, false), "2p (m=+1)");
    assert_eq!(orbital_label(3, 2, -2, false), "3d (m=-2)");
    assert_eq!(orbital_label(4, 3, 0, false), "4f (m=+0)");
}

#[test]
fn label_of_real_orbitals() {
    assert_eq!(orbital_label(2, 1, 1, true), "2p_x");
    assert_eq!(orbital_label(3, 2, -2, true), "3d_xy");
    assert_eq!(orbital_label(4, 3, 0, true), "4f_z³");
}

#[test]
fn label_of_real_orbitals_beyond_the_table() {
    assert_eq!(orbital_label(5, 4, 3, true), "5g · cos(3φ)");
    assert_eq!(orbital_label(6, 5, -4, true), "6h · sin(4φ)");
    assert_eq!(orbital_label(6, 4, 0, true), "6g · cos(0φ)");
}

#[test]
fn label_with_many_digits() {
    assert_eq!(orbital_label(1234567890, 0, 0, false), "1234567890s");
    assert_eq!(orbital_label(10, 1, -1, false), "10p (m=-1)");
    assert_eq!(orbital_label(7, 5, i32::MIN, false), "7h (m=-2147483648)");
    assert_eq!(orbital_label(9, 7, 2, false), "9k (m=+2)");
    assert_eq!(orbital_label(9, 8, -1, true), "9l · sin(1φ)");
}
