//! Decimal rendering, width padding and truncated percentages: the numeric
//! building blocks of the progress status line.

use vstd::prelude::*;

verus! {

/// The character for a single decimal digit.
pub open spec fn digit_char(d: nat) -> char {
    if d == 0 {
        '0'
    } else if d == 1 {
        '1'
    } else if d == 2 {
        '2'
    } else if d == 3 {
        '3'
    } else if d == 4 {
        '4'
    } else if d == 5 {
        '5'
    } else if d == 6 {
        '6'
    } else if d == 7 {
        '7'
    } else if d == 8 {
        '8'
    } else {
        '9'
    }
}

/// The decimal digits of `n`, most significant first, with no sign and no
/// leading zeros (a single `'0'` for zero).
pub open spec fn dec_of(n: nat) -> Seq<char>
    decreases n,
{
    if n < 10 {
        seq![digit_char(n)]
    } else {
        dec_of(n / 10) + seq![digit_char(n % 10)]
    }
}

/// `n` space characters.
pub open spec fn spaces(n: nat) -> Seq<char>
    decreases n,
{
    if n == 0 {
        Seq::empty()
    } else {
        spaces((n - 1) as nat) + seq![' ']
    }
}

/// `s`, right-aligned in a field of width `w`: spaces are put before it until
/// the field is filled; a string already `w` long or longer is unchanged.
pub open spec fn padded_left(s: Seq<char>, w: nat) -> Seq<char> {
    if s.len() >= w {
        s
    } else {
        spaces((w - s.len()) as nat) + s
    }
}

/// The truncated integer percentage `part` makes of `total`, taken as `0`
/// when `total` is zero (never a division by zero) and capped at `100`.
pub open spec fn pct_of(part: nat, total: nat) -> nat {
    if total == 0 {
        0
    } else if 100 * part / total > 100 {
        100
    } else {
        100 * part / total
    }
}

/// A percentage is always in the range `[0, 100]`; it is `0` for a zero
/// total and `100` when a positive total has been reached in full.
pub proof fn lemma_percent_bounds(part: nat, total: nat)
    ensures
        pct_of(part, total) <= 100,
        total == 0 ==> pct_of(part, total) == 0,
        part == total && total > 0 ==> pct_of(part, total) == 100,
{
    if part == total && total > 0 {
        vstd::arithmetic::div_mod::lemma_div_multiples_vanish(100, total as int);
    }
}

fn digit_str(d: usize) -> (r: &'static str)
    requires
        d < 10,
    ensures
        r@ == seq![digit_char(d as nat)],
{
    let r: &'static str = match d {
        0 => "0",
        1 => "1",
        2 => "2",
        3 => "3",
        4 => "4",
        5 => "5",
        6 => "6",
        7 => "7",
        8 => "8",
        _ => "9",
    };
    proof {
        reveal_strlit("0");
        reveal_strlit("1");
        reveal_strlit("2");
        reveal_strlit("3");
        reveal_strlit("4");
        reveal_strlit("5");
        reveal_strlit("6");
        reveal_strlit("7");
        reveal_strlit("8");
        reveal_strlit("9");
        assert(r@ =~= seq![digit_char(d as nat)]);
    }
    r
}

/// Renders `n` in decimal.
pub fn dec_str(n: usize) -> (r: String)
    ensures
        r@ == dec_of(n as nat),
    decreases n,
{
    if n < 10 {
        let mut s = String::new();
        s.append(digit_str(n));
        proof {
            assert(s@ =~= dec_of(n as nat));
        }
        s
    } else {
        let mut s = dec_str(n / 10);
        s.append(digit_str(n % 10));
        proof {
            assert(s@ =~= dec_of(n as nat));
        }
        s
    }
}

/// Right-aligns `s` in a field of width `w` by putting spaces before it.
pub fn pad_left(s: &str, w: usize) -> (r: String)
    ensures
        r@ == padded_left(s@, w as nat),
{
    let n = s.unicode_len();
    if n >= w {
        s.to_owned()
    } else {
        let mut r = String::new();
        let mut j: usize = 0;
        while j < w - n
            invariant
                n == s@.len(),
                n < w,
                j <= w - n,
                r@ == spaces(j as nat),
            decreases w - n - j,
        {
            proof {
                reveal_strlit(" ");
                assert(" "@ =~= seq![' ']);
            }
            r.append(" ");
            j = j + 1;
        }
        r.append(s);
        r
    }
}

/// The truncated percentage `part` makes of `total`, `0` for a zero total.
pub fn percent(part: usize, total: usize) -> (r: usize)
    ensures
        r == pct_of(part as nat, total as nat),
        r <= 100,
        total == 0 ==> r == 0,
{
    if total == 0 {
        0
    } else {
        let q: u128 = 100u128 * (part as u128) / (total as u128);
        if q > 100 {
            100
        } else {
            q as usize
        }
    }
}

} // verus!
