//! Decimal text of integers, built on `String` with its view proved.

use vstd::prelude::*;

verus! {

/// The decimal digit character for `d` (for `0 <= d < 10`).
pub open spec fn digit_char(d: int) -> char {
    if d == 0 {
        '0'
    } else if d == 1 {
        '1'
    } else if d == 2 {
        '2'
    } else if d == 3 {
        '3'
    } else if d == 4 {
        '4'
    } else if d == 5 {
        '5'
    } else if d == 6 {
        '6'
    } else if d == 7 {
        '7'
    } else if d == 8 {
        '8'
    } else {
        '9'
    }
}

/// `n` in decimal, without leading zeros.
pub open spec fn nat_text(n: nat) -> Seq<char>
    decreases n,
{
    if n < 10 {
        seq![digit_char(n as int)]
    } else {
        nat_text(n / 10) + seq![digit_char((n % 10) as int)]
    }
}

/// The last `w` decimal digits of `n`, zeros in front where `n` is shorter.
pub open spec fn fixed_digits(n: nat, w: nat) -> Seq<char>
    decreases w,
{
    if w == 0 {
        Seq::empty()
    } else {
        fixed_digits(n / 10, (w - 1) as nat) + seq![digit_char((n % 10) as int)]
    }
}

/// The absolute value of `m`.
pub open spec fn magnitude(m: int) -> nat {
    if m < 0 {
        (-m) as nat
    } else {
        m as nat
    }
}

/// `"-"` for a negative `m`, nothing otherwise.
pub open spec fn sign_text(m: int) -> Seq<char> {
    if m < 0 {
        seq!['-']
    } else {
        Seq::empty()
    }
}

/// A one-character literal for the digit `d`.
fn digit_str(d: u64) -> (r: &'static str)
    requires
        d < 10,
    ensures
        r@ == seq![digit_char(d as int)],
{
    if d == 0 {
        proof { reveal_strlit("0"); }
        "0"
    } else if d == 1 {
        proof { reveal_strlit("1"); }
        "1"
    } else if d == 2 {
        proof { reveal_strlit("2"); }
        "2"
    } else if d == 3 {
        proof { reveal_strlit("3"); }
        "3"
    } else if d == 4 {
        proof { reveal_strlit("4"); }
        "4"
    } else if d == 5 {
        proof { reveal_strlit("5"); }
        "5"
    } else if d == 6 {
        proof { reveal_strlit("6"); }
        "6"
    } else if d == 7 {
        proof { reveal_strlit("7"); }
        "7"
    } else if d == 8 {
        proof { reveal_strlit("8"); }
        "8"
    } else {
        proof { reveal_strlit("9"); }
        "9"
    }
}

/// Appends `n` in decimal.
pub fn push_nat(s: &mut String, n: u64)
    ensures
        final(s)@ == old(s)@ + nat_text(n as nat),
    decreases n,
{
    if n >= 10 {
        push_nat(s, n / 10);
    }
    s.append(digit_str(n % 10));
    assert(final(s)@ =~= old(s)@ + nat_text(n as nat));
}

/// Appends the last `w` decimal digits of `n`, zero-padded.
pub fn push_fixed(s: &mut String, n: u64, w: u64)
    ensures
        final(s)@ == old(s)@ + fixed_digits(n as nat, w as nat),
    decreases w,
{
    if w > 0 {
        push_fixed(s, n / 10, w - 1);
        s.append(digit_str(n % 10));
        assert(final(s)@ =~= old(s)@ + fixed_digits(n as nat, w as nat));
    }
}

/// Appends `"-"` when `m` is negative.
pub fn push_sign(s: &mut String, m: i64)
    ensures
        final(s)@ == old(s)@ + sign_text(m as int),
{
    if m < 0 {
        proof { reveal_strlit("-"); }
        s.append("-");
    } else {
        assert(old(s)@ + sign_text(m as int) =~= old(s)@);
    }
}

/// The absolute value of `m`, which always fits in a `u64`.
pub fn magnitude_of(m: i64) -> (r: u64)
    ensures
        r as nat == magnitude(m as int),
{
    if m < 0 {
        ((-(m + 1)) as u64) + 1
    } else {
        m as u64
    }
}

} // verus!
