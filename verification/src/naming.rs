//! Spectroscopic names of orbitals: subshell letters, the chemists' suffixes of
//! the real orbitals, and the full label shown for a triple `(n, l, m)`.

use vstd::prelude::*;

use crate::text::{decimal, push_char, push_decimal, push_signed, signed_decimal};

verus! {

// ── Subshell letters ─────────────────────────────────────────────────────────

/// The letters of spectroscopic notation for `l` in `0..=20`: `s, p, d, f`,
/// then the alphabet from `g` on without `j` and without the letters already
/// taken (`p`, `s`): `g h i k l m n o q r t u v w x y z`.
pub open spec fn notation_letter(l: int) -> char {
    if l == 0 {
        's'
    } else if l == 1 {
        'p'
    } else if l == 2 {
        'd'
    } else if l == 3 {
        'f'
    } else if l == 4 {
        'g'
    } else if l == 5 {
        'h'
    } else if l == 6 {
        'i'
    } else if l == 7 {
        'k'
    } else if l == 8 {
        'l'
    } else if l == 9 {
        'm'
    } else if l == 10 {
        'n'
    } else if l == 11 {
        'o'
    } else if l == 12 {
        'q'
    } else if l == 13 {
        'r'
    } else if l == 14 {
        't'
    } else if l == 15 {
        'u'
    } else if l == 16 {
        'v'
    } else if l == 17 {
        'w'
    } else if l == 18 {
        'x'
    } else if l == 19 {
        'y'
    } else {
        'z'
    }
}

/// Whether `subshell_letter(l)` is defined. Outside the notation (`l > 20`,
/// and any negative `l`) the letter is the byte `b'g' + (l − 4) as u8`, and
/// that addition must not overflow; `(l − 4) as u8` keeps the low byte.
pub open spec fn letter_defined(l: i32) -> bool {
    ||| 0 <= l <= 3
    ||| (l >= i32::MIN + 4 && 103 + ((l - 4) as u8) <= 255)
}

/// The letter of the subshell with angular momentum `l`: the notation's
/// letter up to `z`, the byte `b'g' + (l − 4) as u8` beyond it.
pub open spec fn spec_subshell_letter(l: i32) -> char {
    if 0 <= l <= 20 {
        notation_letter(l as int)
    } else {
        (103 + ((l - 4) as u8)) as char
    }
}

/// Spectroscopic letter of `l`: `s, p, d, f, g, h, i, k, l, m, ...` (no `j`,
/// and `p`, `s` only once), up to `z` for `l = 20`; past `z`, where the
/// notation has no letters, the character `b'g' + (l − 4) as u8`.
pub fn subshell_letter(l: i32) -> (c: char)
    requires
        letter_defined(l),
    ensures
        c == spec_subshell_letter(l),
        0 <= l <= 20 ==> c != 'j',
{
    match l {
        0 => 's',
        1 => 'p',
        2 => 'd',
        3 => 'f',
        4 => 'g',
        5 => 'h',
        6 => 'i',
        7 => 'k',
        8 => 'l',
        9 => 'm',
        10 => 'n',
        11 => 'o',
        12 => 'q',
        13 => 'r',
        14 => 't',
        15 => 'u',
        16 => 'v',
        17 => 'w',
        18 => 'x',
        19 => 'y',
        20 => 'z',
        _ => {
            let k: u8 = (l - 4) as u8;
            (103u8 + k) as char
        },
    }
}

/// The notation gives different subshells different letters, and from `g`
/// on its letters follow the order of the alphabet; past `z` the characters
/// keep increasing with `l` while `l − 4` stays below 256.
pub proof fn lemma_letters_distinct(l1: i32, l2: i32)
    ensures
        0 <= l1 <= 20 && 0 <= l2 <= 20 && l1 != l2 ==> spec_subshell_letter(l1)
            != spec_subshell_letter(l2),
        4 <= l1 < l2 <= 20 ==> (spec_subshell_letter(l1) as int) < (spec_subshell_letter(
            l2,
        ) as int),
        21 <= l1 < l2 <= 156 ==> (spec_subshell_letter(l1) as int) < (spec_subshell_letter(
            l2,
        ) as int),
{
    if 21 <= l1 < l2 <= 156 {
        assert(((l1 - 4) as u8) == l1 - 4 && ((l2 - 4) as u8) == l2 - 4);
    }
}

// ── Real-orbital suffixes ────────────────────────────────────────────────────

/// The chemists' suffix of the real combination with quantum numbers `(l, m)`,
/// for the usual `p`, `d` and `f` orbitals; none for the others.
pub open spec fn spec_real_suffix(l: int, m: int) -> Option<Seq<char>> {
    if l == 1 && m == 0 {
        Some("z"@)
    } else if l == 1 && m == 1 {
        Some("x"@)
    } else if l == 1 && m == -1 {
        Some("y"@)
    } else if l == 2 && m == 0 {
        Some("z²"@)
    } else if l == 2 && m == 1 {
        Some("xz"@)
    } else if l == 2 && m == -1 {
        Some("yz"@)
    } else if l == 2 && m == 2 {
        Some("x²−y²"@)
    } else if l == 2 && m == -2 {
        Some("xy"@)
    } else if l == 3 && m == 0 {
        Some("z³"@)
    } else if l == 3 && m == 1 {
        Some("xz²"@)
    } else if l == 3 && m == -1 {
        Some("yz²"@)
    } else if l == 3 && m == 2 {
        Some("z(x²−y²)"@)
    } else if l == 3 && m == -2 {
        Some("xyz"@)
    } else if l == 3 && m == 3 {
        Some("x(x²−3y²)"@)
    } else if l == 3 && m == -3 {
        Some("y(3x²−y²)"@)
    } else {
        None
    }
}

/// Suffix of the usual real combinations (`p_x`, `d_xy`, ...), `None` outside
/// the table (`l` above 3, or `|m| > l`).
pub fn real_orbital_suffix(l: i32, m: i32) -> (r: Option<&'static str>)
    ensures
        match r {
            Some(s) => spec_real_suffix(l as int, m as int) == Some(s@),
            None => spec_real_suffix(l as int, m as int) is None,
        },
        spec_real_suffix(l as int, m as int) is Some <==> (1 <= l <= 3 && -l <= m <= l),
        r is Some <==> (1 <= l <= 3 && -l <= m <= l),
        (l == 1 && m == 0) ==> (r matches Some(s) && s@ == "z"@),
        (l == 1 && m == 1) ==> (r matches Some(s) && s@ == "x"@),
        (l == 1 && m == -1) ==> (r matches Some(s) && s@ == "y"@),
        (l == 2 && m == 0) ==> (r matches Some(s) && s@ == "z²"@),
        (l == 2 && m == 1) ==> (r matches Some(s) && s@ == "xz"@),
        (l == 2 && m == -1) ==> (r matches Some(s) && s@ == "yz"@),
        (l == 2 && m == 2) ==> (r matches Some(s) && s@ == "x²−y²"@),
        (l == 2 && m == -2) ==> (r matches Some(s) && s@ == "xy"@),
        (l == 3 && m == 0) ==> (r matches Some(s) && s@ == "z³"@),
        (l == 3 && m == 1) ==> (r matches Some(s) && s@ == "xz²"@),
        (l == 3 && m == -1) ==> (r matches Some(s) && s@ == "yz²"@),
        (l == 3 && m == 2) ==> (r matches Some(s) && s@ == "z(x²−y²)"@),
        (l == 3 && m == -2) ==> (r matches Some(s) && s@ == "xyz"@),
        (l == 3 && m == 3) ==> (r matches Some(s) && s@ == "x(x²−3y²)"@),
        (l == 3 && m == -3) ==> (r matches Some(s) && s@ == "y(3x²−y²)"@),
{
    match (l, m) {
        (1, 0) => Some("z"),
        (1, 1) => Some("x"),
        (1, -1) => Some("y"),
        (2, 0) => Some("z²"),
        (2, 1) => Some("xz"),
        (2, -1) => Some("yz"),
        (2, 2) => Some("x²−y²"),
        (2, -2) => Some("xy"),
        (3, 0) => Some("z³"),
        (3, 1) => Some("xz²"),
        (3, -1) => Some("yz²"),
        (3, 2) => Some("z(x²−y²)"),
        (3, -2) => Some("xyz"),
        (3, 3) => Some("x(x²−3y²)"),
        (3, -3) => Some("y(3x²−y²)"),
        _ => None,
    }
}


/// The suffix is the Cartesian form of `r^l P_l^{|m|}(cos θ)` times
/// `cos(|m|φ)` for `m > 0` and `sin(|m|φ)` for `m < 0`: the cosine forms
/// carry an `x`, the sine forms a `y`, and the `m = 0` forms are powers of
/// `z` alone.
pub proof fn lemma_suffix_axes(l: int, m: int)
    ensures
        spec_real_suffix(l, m) matches Some(s) ==> {
            &&& m > 0 ==> s.contains('x')
            &&& m < 0 ==> s.contains('y')
            &&& m == 0 ==> s[0] == 'z'
        },
{
    reveal_strlit("z");
    reveal_strlit("x");
    reveal_strlit("y");
    reveal_strlit("z²");
    reveal_strlit("xz");
    reveal_strlit("yz");
    reveal_strlit("x²−y²");
    reveal_strlit("xy");
    reveal_strlit("z³");
    reveal_strlit("xz²");
    reveal_strlit("yz²");
    reveal_strlit("z(x²−y²)");
    reveal_strlit("xyz");
    reveal_strlit("x(x²−3y²)");
    reveal_strlit("y(3x²−y²)");
    if let Some(s) = spec_real_suffix(l, m) {
        if m > 0 {
            assert(s[0] == 'x' || s[2] == 'x');
        } else if m < 0 {
            assert(s[0] == 'y' || s[1] == 'y');
        }
    }
}

// ── Full labels ──────────────────────────────────────────────────────────────

/// Whether `orbital_label(n, l, m, real_form)` is defined: the letter of `l` must
/// exist unless `l == 0`, and the generic real label takes `|m|`, which
/// `i32::MIN` has not.
pub open spec fn label_defined(l: i32, m: i32, real_form: bool) -> bool {
    l == 0 || (letter_defined(l) && (real_form && spec_real_suffix(l as int, m as int) is None
        ==> m != i32::MIN))
}

/// The label of the orbital `(n, l, m)`: `"{n}s"` for `l == 0`; for the real
/// form `"{n}{letter}_{suffix}"` or `"{n}{letter} · cos(|m|φ)"` (`sin` for
/// negative `m`); for the complex eigenstate `"{n}{letter} (m=±|m|)"`.
pub open spec fn spec_orbital_label(n: u32, l: i32, m: i32, real_form: bool) -> Seq<char> {
    let head = decimal(n as nat);
    if l == 0 {
        head + "s"@
    } else if real_form {
        match spec_real_suffix(l as int, m as int) {
            Some(suffix) => head.push(spec_subshell_letter(l)).push('_') + suffix,
            None => head.push(spec_subshell_letter(l)) + " · "@ + (if m >= 0 {
                "cos"@
            } else {
                "sin"@
            }) + "("@ + decimal(if m >= 0 {
                m as nat
            } else {
                (-m) as nat
            }) + "φ)"@,
        }
    } else {
        head.push(spec_subshell_letter(l)) + " (m="@ + signed_decimal(m as int) + ")"@
    }
}

/// Name of the triple `(n, l, m)`: `"2p (m=+1)"` for the complex eigenstate,
/// `"2p_x"` for the real form.
pub fn orbital_label(n: u32, l: i32, m: i32, real_form: bool) -> (s: String)
    requires
        label_defined(l, m, real_form),
    ensures
        s@ == spec_orbital_label(n, l, m, real_form),
{
    let mut s = String::new();
    push_decimal(&mut s, n);
    if l == 0 {
        s.append("s");
        return s;
    }
    push_char(&mut s, subshell_letter(l));
    if real_form {
        match real_orbital_suffix(l, m) {
            Some(suffix) => {
                push_char(&mut s, '_');
                s.append(suffix);
            },
            None => {
                s.append(" · ");
                if m >= 0 {
                    s.append("cos");
                } else {
                    s.append("sin");
                }
                s.append("(");
                let magnitude: u32 = if m >= 0 {
                    m as u32
                } else {
                    (-m) as u32
                };
                push_decimal(&mut s, magnitude);
                s.append("φ)");
            },
        }
    } else {
        s.append(" (m=");
        push_signed(&mut s, m);
        s.append(")");
    }
    s
}

} // verus!
