//! Reading the two lines of a one-wire sensor file: the first ends with the
//! self-test verdict, the second carries `t=` and the milli-degrees.

use vstd::prelude::*;

verus! {

/// White space as `char::is_whitespace` knows it (Unicode `White_Space`).
pub open spec fn is_space(c: char) -> bool {
    let u = c as u32;
    u == 0x20 || (0x09 <= u && u <= 0x0d) || u == 0x85 || u == 0xa0 || u == 0x1680 || (0x2000
        <= u && u <= 0x200a) || u == 0x2028 || u == 0x2029 || u == 0x202f || u == 0x205f || u
        == 0x3000
}

/// An ASCII decimal digit.
pub open spec fn is_digit(c: char) -> bool {
    0x30 <= (c as u32) && (c as u32) <= 0x39
}

/// The value of a decimal digit.
pub open spec fn digit_value(c: char) -> int {
    (c as u32) - 0x30
}

/// The value of a run of decimal digits.
pub open spec fn digits_value(s: Seq<char>) -> int
    decreases s.len(),
{
    if s.len() == 0 {
        0
    } else {
        digits_value(s.drop_last()) * 10 + digit_value(s.last())
    }
}

/// Decimal digits and nothing else (possibly none).
pub open spec fn digits_only(s: Seq<char>) -> bool {
    forall|k: int| 0 <= k < s.len() ==> #[trigger] is_digit(s[k])
}

/// The first `.` at or after `i`, or `s.len()` where none is.
pub open spec fn point_from(s: Seq<char>, i: int) -> int
    decreases s.len() - i,
{
    if i < 0 || i >= s.len() {
        s.len() as int
    } else if s[i] == '.' {
        i
    } else {
        point_from(s, i + 1)
    }
}

/// The first (up to) three digits of a fraction, in thousandths, with the
/// fourth digit rounding half away from zero.
pub open spec fn fraction_thousandths(f: Seq<char>) -> int {
    (if f.len() >= 1 {
        digit_value(f[0]) * 100
    } else {
        0int
    }) + (if f.len() >= 2 {
        digit_value(f[1]) * 10
    } else {
        0int
    }) + (if f.len() >= 3 {
        digit_value(f[2])
    } else {
        0int
    }) + (if f.len() >= 4 && digit_value(f[3]) >= 5 {
        1int
    } else {
        0int
    })
}

/// Thousandths of the unsigned decimal `u` (digits, optionally a point and
/// more digits, at least one digit in all), rounded half away from zero.
pub open spec fn unsigned_thousandths(u: Seq<char>) -> Option<int> {
    let p = point_from(u, 0);
    let whole = u.subrange(0, p);
    let fraction = if p < u.len() {
        u.subrange(p + 1, u.len() as int)
    } else {
        Seq::empty()
    };
    if digits_only(whole) && digits_only(fraction) && whole.len() + fraction.len() > 0 {
        Some(digits_value(whole) * 1000 + fraction_thousandths(fraction))
    } else {
        None
    }
}

/// Thousandths of the decimal number that `s` spells: an optional sign, then
/// an unsigned decimal (`-1250.5` is `-1250500`).
pub open spec fn number_thousandths(s: Seq<char>) -> Option<int> {
    if s.len() > 0 && s[0] == '-' {
        match unsigned_thousandths(s.drop_first()) {
            Some(v) => Some(-v),
            None => None,
        }
    } else if s.len() > 0 && s[0] == '+' {
        unsigned_thousandths(s.drop_first())
    } else {
        unsigned_thousandths(s)
    }
}

/// The end of the white space that starts at `i`.
pub open spec fn space_end(s: Seq<char>, i: int) -> int
    decreases s.len() - i,
{
    if 0 <= i < s.len() && is_space(s[i]) {
        space_end(s, i + 1)
    } else {
        i
    }
}

/// The start of the white space that ends at `j`, going no lower than `lo`.
pub open spec fn space_start(s: Seq<char>, lo: int, j: int) -> int
    decreases j - lo,
{
    if lo < j <= s.len() && is_space(s[j - 1]) {
        space_start(s, lo, j - 1)
    } else {
        j
    }
}

/// `s` without white space at either end.
pub open spec fn trimmed(s: Seq<char>) -> Seq<char> {
    let a = space_end(s, 0);
    s.subrange(a, space_start(s, a, s.len() as int))
}

/// The marker `t=` stands at `i`.
pub open spec fn marker_at(s: Seq<char>, i: int) -> bool {
    0 <= i && i + 2 <= s.len() && s[i] == 't' && s[i + 1] == '='
}

/// The first marker at or after `i`, or `s.len()` where none is.
pub open spec fn marker_from(s: Seq<char>, i: int) -> int
    decreases s.len() - i,
{
    if i < 0 || i + 2 > s.len() {
        s.len() as int
    } else if marker_at(s, i) {
        i
    } else {
        marker_from(s, i + 1)
    }
}

/// What follows the first marker, up to the next marker or the end; `None`
/// where `s` holds no marker.
pub open spec fn field_after_marker(s: Seq<char>) -> Option<Seq<char>> {
    let i = marker_from(s, 0);
    if i + 2 > s.len() {
        None
    } else {
        let rest = s.subrange(i + 2, s.len() as int);
        Some(rest.subrange(0, marker_from(rest, 0)))
    }
}

/// The line ends with the self-test verdict `YES`.
pub open spec fn passed_self_test(s: Seq<char>) -> bool {
    s.len() >= 3 && s.subrange(s.len() - 3, s.len() as int) == seq!['Y', 'E', 'S']
}

/// The micro-degrees that the sensor's lines report (the file gives
/// milli-degrees, possibly with a fraction), or `None` where there are fewer
/// than two lines, the first lacks the verdict, or the second holds no number
/// after `t=`.
pub open spec fn sensor_value(lines: Seq<String>) -> Option<int> {
    if lines.len() >= 2 && passed_self_test(lines[0]@) {
        match field_after_marker(lines[1]@) {
            Some(f) => number_thousandths(trimmed(f)),
            None => None,
        }
    } else {
        None
    }
}

/// `v` as an `i64` where it fits, else `None`.
pub open spec fn fit_i64(v: Option<int>) -> Option<i64> {
    match v {
        Some(x) => if i64::MIN <= x <= i64::MAX {
            Some(x as i64)
        } else {
            None
        },
        None => None,
    }
}

/// The characters of `s`.
fn chars_of(s: &str) -> (r: Vec<char>)
    ensures
        r@ == s@,
{
    let n = s.unicode_len();
    let mut v: Vec<char> = Vec::new();
    let mut i: usize = 0;
    while i < n
        invariant
            n == s@.len(),
            i <= n,
            v@ == s@.subrange(0, i as int),
        decreases n - i,
    {
        v.push(s.get_char(i));
        i = i + 1;
        assert(v@ =~= s@.subrange(0, i as int));
    }
    assert(v@ =~= s@);
    v
}

/// The characters `v[a..b]`.
fn slice_chars(v: &Vec<char>, a: usize, b: usize) -> (r: Vec<char>)
    requires
        a <= b <= v@.len(),
    ensures
        r@ == v@.subrange(a as int, b as int),
{
    let mut r: Vec<char> = Vec::new();
    let mut i = a;
    while i < b
        invariant
            a <= i <= b <= v@.len(),
            r@ == v@.subrange(a as int, i as int),
        decreases b - i,
    {
        r.push(v[i]);
        i = i + 1;
        assert(r@ =~= v@.subrange(a as int, i as int));
    }
    r
}

/// `char::is_whitespace`, for the characters of `is_space`.
fn space(c: char) -> (r: bool)
    ensures
        r == is_space(c),
{
    let u = c as u32;
    u == 0x20 || (0x09 <= u && u <= 0x0d) || u == 0x85 || u == 0xa0 || u == 0x1680 || (0x2000
        <= u && u <= 0x200a) || u == 0x2028 || u == 0x2029 || u == 0x202f || u == 0x205f || u
        == 0x3000
}

/// The first marker in `v[from..]`, or `v.len()`.
fn find_marker(v: &Vec<char>, from: usize) -> (r: usize)
    requires
        from <= v@.len(),
    ensures
        r as int == marker_from(v@, from as int),
        from <= r <= v@.len(),
{
    let n = v.len();
    let mut i = from;
    while i < n && n - i > 1 && !(v[i] == 't' && v[i + 1] == '=')
        invariant
            n == v@.len(),
            from <= i <= n,
            marker_from(v@, i as int) == marker_from(v@, from as int),
        decreases n - i,
    {
        i = i + 1;
    }
    if i >= n || n - i < 2 {
        n
    } else {
        i
    }
}

/// The value of the digits `v[lo..hi]`, capped at one past `cap`; `None`
/// where one of them is no digit.
fn capped_digits(v: &Vec<char>, lo: usize, hi: usize, cap: u128) -> (r: Option<u128>)
    requires
        lo <= hi <= v@.len(),
        cap <= 0x8000_0000_0000_0000,
    ensures
        r is Some <==> digits_only(v@.subrange(lo as int, hi as int)),
        r matches Some(x) ==> x == if digits_value(v@.subrange(lo as int, hi as int)) <= cap {
            digits_value(v@.subrange(lo as int, hi as int))
        } else {
            cap + 1
        },
{
    let ghost d = v@.subrange(lo as int, hi as int);
    let mut acc: u128 = 0;
    let mut i = lo;
    while i < hi
        invariant
            lo <= i <= hi <= v@.len(),
            cap <= 0x8000_0000_0000_0000,
            d == v@.subrange(lo as int, hi as int),
            forall|k: int| lo <= k < i ==> #[trigger] is_digit(v@[k]),
            acc == if digits_value(v@.subrange(lo as int, i as int)) <= cap {
                digits_value(v@.subrange(lo as int, i as int))
            } else {
                cap + 1
            },
        decreases hi - i,
    {
        let c = v[i];
        if !(0x30 <= (c as u32) && (c as u32) <= 0x39) {
            assert(!is_digit(d[i - lo]));
            return None;
        }
        let digit = (c as u32 - 0x30) as u128;
        let ghost before = digits_value(v@.subrange(lo as int, i as int));
        assert(v@.subrange(lo as int, i + 1).drop_last() =~= v@.subrange(lo as int, i as int));
        assert(digits_value(v@.subrange(lo as int, i + 1)) == before * 10 + digit);
        if acc > cap {
            assert(before * 10 + digit > cap) by (nonlinear_arith)
                requires before > cap, digit >= 0;
        } else {
            assert(acc * 10 <= cap * 10 && acc * 10 + digit <= cap * 10 + 9) by (nonlinear_arith)
                requires acc <= cap, digit <= 9;
            acc = acc * 10 + digit;
            if acc > cap {
                acc = cap + 1;
            }
        }
        i = i + 1;
    }
    assert(d =~= v@.subrange(lo as int, i as int));
    Some(acc)
}

/// The value of the digit `c`.
fn digit_of(c: char) -> (r: u128)
    requires
        is_digit(c),
    ensures
        r == digit_value(c),
{
    (c as u32 - 0x30) as u128
}

/// Thousandths of the unsigned decimal `v[a..b]`, capped at one past
/// `2^63`; `None` where it is no unsigned decimal.
fn unsigned_value(v: &Vec<char>, a: usize, b: usize) -> (r: Option<u128>)
    requires
        a <= b <= v@.len(),
    ensures
        r is Some <==> unsigned_thousandths(v@.subrange(a as int, b as int)) is Some,
        r matches Some(x) ==> x == if unsigned_thousandths(v@.subrange(a as int, b as int))->0
            <= 0x8000_0000_0000_0000 {
            unsigned_thousandths(v@.subrange(a as int, b as int))->0
        } else {
            0x8000_0000_0000_0001
        },
{
    let ghost u = v@.subrange(a as int, b as int);
    let limit: u128 = 0x8000_0000_0000_0000;
    let mut p = a;
    while p < b && v[p] != '.'
        invariant
            a <= p <= b <= v@.len(),
            u == v@.subrange(a as int, b as int),
            point_from(u, p - a) == point_from(u, 0),
        decreases b - p,
    {
        p = p + 1;
    }
    assert(point_from(u, p - a) == p - a);
    let ghost whole = u.subrange(0, p - a);
    assert(whole =~= v@.subrange(a as int, p as int));
    let f = if p < b {
        p + 1
    } else {
        b
    };
    let ghost fraction = if p < b {
        u.subrange(p - a + 1, u.len() as int)
    } else {
        Seq::empty()
    };
    assert(fraction =~= v@.subrange(f as int, b as int));
    let whole_value = capped_digits(v, a, p, limit);
    let fraction_ok = capped_digits(v, f, b, 0);
    if whole_value.is_none() || fraction_ok.is_none() || (p == a && f == b) {
        return None;
    }
    let w = whole_value.unwrap();
    let n = b - f;
    let mut thousandths: u128 = 0;
    if n >= 1 {
        assert(is_digit(v@[f as int]) && fraction[0] == v@[f as int]);
        thousandths = thousandths + digit_of(v[f]) * 100;
    }
    if n >= 2 {
        assert(is_digit(v@[f + 1]) && fraction[1] == v@[f + 1]);
        thousandths = thousandths + digit_of(v[f + 1]) * 10;
    }
    if n >= 3 {
        assert(is_digit(v@[f + 2]) && fraction[2] == v@[f + 2]);
        thousandths = thousandths + digit_of(v[f + 2]);
    }
    if n >= 4 {
        assert(is_digit(v@[f + 3]) && fraction[3] == v@[f + 3]);
        if digit_of(v[f + 3]) >= 5 {
            thousandths = thousandths + 1;
        }
    }
    assert(thousandths == fraction_thousandths(fraction));
    assert(thousandths <= 1000);
    let ghost exact = digits_value(whole) * 1000 + fraction_thousandths(fraction);
    if w > limit {
        assert(exact > limit) by (nonlinear_arith)
            requires digits_value(whole) > limit, fraction_thousandths(fraction) >= 0,
                exact == digits_value(whole) * 1000 + fraction_thousandths(fraction);
        Some(limit + 1)
    } else {
        assert(w * 1000 <= limit * 1000) by (nonlinear_arith)
            requires w <= limit;
        let total = w * 1000 + thousandths;
        if total > limit {
            Some(limit + 1)
        } else {
            Some(total)
        }
    }
}

/// Thousandths of the signed decimal `v[a..b]`, where they fit in an `i64`.
fn parse_number(v: &Vec<char>, a: usize, b: usize) -> (r: Option<i64>)
    requires
        a <= b <= v@.len(),
    ensures
        r == fit_i64(number_thousandths(v@.subrange(a as int, b as int))),
{
    let ghost s = v@.subrange(a as int, b as int);
    let negative = a < b && v[a] == '-';
    let start = if a < b && (v[a] == '-' || v[a] == '+') {
        a + 1
    } else {
        a
    };
    assert(start > a ==> v@.subrange(start as int, b as int) =~= s.drop_first());
    assert(start == a ==> v@.subrange(start as int, b as int) =~= s);
    let limit: u128 = 0x8000_0000_0000_0000;
    match unsigned_value(v, start, b) {
        None => None,
        Some(x) => {
            if negative {
                if x > limit {
                    None
                } else {
                    Some((0 - x as i128) as i64)
                }
            } else if x < limit {
                Some(x as i64)
            } else {
                None
            }
        },
    }
}

/// The reading in a sensor file's lines, in micro-degrees: `None` where
/// there are fewer than two lines, the first does not end with `YES`, the
/// second has no `t=`, or what follows it (up to a further `t=`, white space
/// trimmed) is no decimal number of milli-degrees whose thousandths fit in an
/// `i64`.
pub fn parse_reading(lines: &Vec<String>) -> (r: Option<i64>)
    ensures
        r == fit_i64(sensor_value(lines@)),
{
    if lines.len() < 2 {
        return None;
    }
    let first = chars_of(lines[0].as_str());
    let n0 = first.len();
    if !(n0 >= 3 && first[n0 - 3] == 'Y' && first[n0 - 2] == 'E' && first[n0 - 1] == 'S') {
        assert(n0 >= 3 ==> first@.subrange(n0 - 3, n0 as int)[0] == first@[n0 - 3]);
        assert(n0 >= 3 ==> first@.subrange(n0 - 3, n0 as int)[1] == first@[n0 - 2]);
        assert(n0 >= 3 ==> first@.subrange(n0 - 3, n0 as int)[2] == first@[n0 - 1]);
        return None;
    }
    assert(first@.subrange(n0 - 3, n0 as int) =~= seq!['Y', 'E', 'S']);
    let second = chars_of(lines[1].as_str());
    let n = second.len();
    let m = find_marker(&second, 0);
    if n < 2 || m > n - 2 {
        return None;
    }
    let end = find_marker(&second, m + 2);
    proof {
        lemma_marker_shift(second@, (m + 2) as int, (m + 2) as int);
    }
    let field = slice_chars(&second, m + 2, end);
    let k = field.len();
    // Trim white space from both ends of the field.
    let mut a: usize = 0;
    while a < k && space(field[a])
        invariant
            k == field@.len(),
            a <= k,
            space_end(field@, a as int) == space_end(field@, 0),
        decreases k - a,
    {
        a = a + 1;
    }
    let mut b = k;
    while b > a && space(field[b - 1])
        invariant
            k == field@.len(),
            a <= b <= k,
            space_start(field@, a as int, b as int) == space_start(field@, a as int, k as int),
        decreases b - a,
    {
        b = b - 1;
    }
    assert(space_end(field@, a as int) == a);
    assert(space_start(field@, a as int, b as int) == b);
    proof {
        let rest = second@.subrange(m + 2, n as int);
        assert(field@ =~= rest.subrange(0, marker_from(rest, 0)));
    }
    parse_number(&field, a, b)
}

/// A marker search in `s[k..]` finds the marker of `s` shifted by `k`.
proof fn lemma_marker_shift(s: Seq<char>, k: int, i: int)
    requires
        0 <= k <= i <= s.len(),
    ensures
        marker_from(s.subrange(k, s.len() as int), i - k) + k == marker_from(s, i),
    decreases s.len() - i,
{
    let t = s.subrange(k, s.len() as int);
    if i + 2 <= s.len() {
        assert(marker_at(t, i - k) == marker_at(s, i));
        if !marker_at(s, i) {
            lemma_marker_shift(s, k, i + 1);
        }
    }
}

} // verus!
