//! Local date and time, and their text in the form
//! `Mon Jan 02 03:04:05 PM +00:00 2024`.

use vstd::prelude::*;
use chrono::{Datelike, Timelike};
use crate::sensor::is_digit;
use crate::text::{digit_char, fixed_digits, magnitude, magnitude_of, nat_text, push_fixed, push_nat};

verus! {

/// A moment in local time, as a calendar and a clock show it.
pub struct LocalTime {
    /// The year; before year 1 it is zero or negative.
    pub year: i32,
    /// The month, `1..=12`.
    pub month: u32,
    /// The day of the month, `1..=31`.
    pub day: u32,
    /// The hour, `0..=23`.
    pub hour: u32,
    /// The minute, `0..=59`.
    pub minute: u32,
    /// The second, `0..=59`.
    pub second: u32,
    /// The nanosecond; from one second on, a leap second is under way.
    pub nanosecond: u32,
    /// The day of the week, counted from Sunday (`0`) to Saturday (`6`).
    pub weekday: u32,
    /// The offset of the time zone from UTC, as text (`+01:00`).
    pub zone: String,
}

impl LocalTime {
    /// Every field lies in its range.
    pub open spec fn wf(&self) -> bool {
        &&& 1 <= self.month <= 12
        &&& 1 <= self.day <= 31
        &&& self.hour < 24
        &&& self.minute < 60
        &&& self.second < 60
        &&& self.nanosecond < 2_000_000_000
        &&& self.weekday < 7
    }
}

/// The text of a UTC offset as chrono's `FixedOffset` writes it: a sign,
/// two-digit hours, `:`, two-digit minutes, and where the seconds are not
/// zero, `:` and two-digit seconds (`+01:00`, `-00:25:21`).
pub open spec fn is_offset_text(z: Seq<char>) -> bool {
    &&& z.len() == 6 || z.len() == 9
    &&& z[0] == '+' || z[0] == '-'
    &&& is_digit(z[1]) && is_digit(z[2]) && z[3] == ':' && is_digit(z[4]) && is_digit(z[5])
    &&& z.len() == 9 ==> z[6] == ':' && is_digit(z[7]) && is_digit(z[8])
}

/// The three-letter name of a day of the week counted from Sunday.
pub open spec fn weekday_name(w: u32) -> Seq<char> {
    if w == 0 {
        seq!['S', 'u', 'n']
    } else if w == 1 {
        seq!['M', 'o', 'n']
    } else if w == 2 {
        seq!['T', 'u', 'e']
    } else if w == 3 {
        seq!['W', 'e', 'd']
    } else if w == 4 {
        seq!['T', 'h', 'u']
    } else if w == 5 {
        seq!['F', 'r', 'i']
    } else {
        seq!['S', 'a', 't']
    }
}

/// The three-letter name of a month counted from January as `1`.
pub open spec fn month_name(m: u32) -> Seq<char> {
    if m == 1 {
        seq!['J', 'a', 'n']
    } else if m == 2 {
        seq!['F', 'e', 'b']
    } else if m == 3 {
        seq!['M', 'a', 'r']
    } else if m == 4 {
        seq!['A', 'p', 'r']
    } else if m == 5 {
        seq!['M', 'a', 'y']
    } else if m == 6 {
        seq!['J', 'u', 'n']
    } else if m == 7 {
        seq!['J', 'u', 'l']
    } else if m == 8 {
        seq!['A', 'u', 'g']
    } else if m == 9 {
        seq!['S', 'e', 'p']
    } else if m == 10 {
        seq!['O', 'c', 't']
    } else if m == 11 {
        seq!['N', 'o', 'v']
    } else {
        seq!['D', 'e', 'c']
    }
}

/// The hour on a twelve-hour clock, `1..=12`.
pub open spec fn hour12(h: u32) -> nat {
    if h % 12 == 0 {
        12
    } else {
        (h % 12) as nat
    }
}

/// `AM` before noon, `PM` from noon on.
pub open spec fn am_pm(h: u32) -> Seq<char> {
    if h < 12 {
        seq!['A', 'M']
    } else {
        seq!['P', 'M']
    }
}

/// The second as a clock shows it: `60` during a leap second.
pub open spec fn shown_second(t: LocalTime) -> nat {
    (t.second + t.nanosecond / 1_000_000_000) as nat
}

/// The year in four digits for years `0..=9999`, else with a sign and at
/// least four digits.
pub open spec fn year_text(y: i32) -> Seq<char> {
    if 0 <= y <= 9999 {
        fixed_digits(y as nat, 4)
    } else {
        (if y < 0 {
            seq!['-']
        } else {
            seq!['+']
        }) + if magnitude(y as int) < 10000 {
            fixed_digits(magnitude(y as int), 4)
        } else {
            nat_text(magnitude(y as int))
        }
    }
}

/// The text of a moment: weekday, month, day, 12-hour time, `AM`/`PM`, zone
/// and year, one space between each.
pub open spec fn date_text(t: LocalTime) -> Seq<char> {
    weekday_name(t.weekday) + seq![' '] + month_name(t.month) + seq![' '] + fixed_digits(
        t.day as nat,
        2,
    ) + seq![' '] + fixed_digits(hour12(t.hour), 2) + seq![':'] + fixed_digits(t.minute as nat, 2)
        + seq![':'] + fixed_digits(shown_second(t), 2) + seq![' '] + am_pm(t.hour) + seq![' ']
        + t.zone@ + seq![' '] + year_text(t.year)
}

fn weekday_str(w: u32) -> (r: &'static str)
    requires
        w < 7,
    ensures
        r@ == weekday_name(w),
{
    if w == 0 {
        proof { reveal_strlit("Sun"); }
        "Sun"
    } else if w == 1 {
        proof { reveal_strlit("Mon"); }
        "Mon"
    } else if w == 2 {
        proof { reveal_strlit("Tue"); }
        "Tue"
    } else if w == 3 {
        proof { reveal_strlit("Wed"); }
        "Wed"
    } else if w == 4 {
        proof { reveal_strlit("Thu"); }
        "Thu"
    } else if w == 5 {
        proof { reveal_strlit("Fri"); }
        "Fri"
    } else {
        proof { reveal_strlit("Sat"); }
        "Sat"
    }
}

fn month_str(m: u32) -> (r: &'static str)
    requires
        1 <= m <= 12,
    ensures
        r@ == month_name(m),
{
    if m == 1 {
        proof { reveal_strlit("Jan"); }
        "Jan"
    } else if m == 2 {
        proof { reveal_strlit("Feb"); }
        "Feb"
    } else if m == 3 {
        proof { reveal_strlit("Mar"); }
        "Mar"
    } else if m == 4 {
        proof { reveal_strlit("Apr"); }
        "Apr"
    } else if m == 5 {
        proof { reveal_strlit("May"); }
        "May"
    } else if m == 6 {
        proof { reveal_strlit("Jun"); }
        "Jun"
    } else if m == 7 {
        proof { reveal_strlit("Jul"); }
        "Jul"
    } else if m == 8 {
        proof { reveal_strlit("Aug"); }
        "Aug"
    } else if m == 9 {
        proof { reveal_strlit("Sep"); }
        "Sep"
    } else if m == 10 {
        proof { reveal_strlit("Oct"); }
        "Oct"
    } else if m == 11 {
        proof { reveal_strlit("Nov"); }
        "Nov"
    } else {
        proof { reveal_strlit("Dec"); }
        "Dec"
    }
}

/// Appends the year as `year_text` spells it.
fn push_year(s: &mut String, y: i32)
    ensures
        final(s)@ == old(s)@ + year_text(y),
{
    if 0 <= y && y <= 9999 {
        push_fixed(s, y as u64, 4);
    } else {
        if y < 0 {
            proof { reveal_strlit("-"); }
            s.append("-");
        } else {
            proof { reveal_strlit("+"); }
            s.append("+");
        }
        let m = magnitude_of(y as i64);
        if m < 10000 {
            push_fixed(s, m, 4);
        } else {
            push_nat(s, m);
        }
    }
    assert(final(s)@ =~= old(s)@ + year_text(y));
}

/// The text of a moment, e.g. `Mon Jan 02 03:04:05 PM +00:00 2024`.
pub fn format_local_time(t: &LocalTime) -> (r: String)
    requires
        t.wf(),
    ensures
        r@ == date_text(*t),
{
    proof {
        reveal_strlit(" ");
        reveal_strlit(":");
        reveal_strlit("AM");
        reveal_strlit("PM");
    }
    let mut s = String::from_str(weekday_str(t.weekday));
    s.append(" ");
    s.append(month_str(t.month));
    s.append(" ");
    push_fixed(&mut s, t.day as u64, 2);
    s.append(" ");
    let h = t.hour % 12;
    let h12: u64 = if h == 0 {
        12
    } else {
        h as u64
    };
    push_fixed(&mut s, h12, 2);
    s.append(":");
    push_fixed(&mut s, t.minute as u64, 2);
    s.append(":");
    push_fixed(&mut s, (t.second + t.nanosecond / 1_000_000_000) as u64, 2);
    s.append(" ");
    if t.hour < 12 {
        s.append("AM");
    } else {
        s.append("PM");
    }
    s.append(" ");
    s.append(t.zone.as_str());
    s.append(" ");
    push_year(&mut s, t.year);
    assert(s@ =~= date_text(*t));
    s
}

/// Relies on chrono's `Local::now` and the `Datelike` / `Timelike`
/// accessors of the result, whose ranges chrono documents, and on the
/// offset's `Display`, which is the text chrono writes for `%Z`.
#[verifier::external_body]
fn now_local() -> (t: LocalTime)
    ensures
        t.wf(),
        is_offset_text(t.zone@),
{
    let now = chrono::Local::now();
    LocalTime {
        year: now.year(),
        month: now.month(),
        day: now.day(),
        hour: now.hour(),
        minute: now.minute(),
        second: now.second(),
        nanosecond: now.nanosecond(),
        weekday: now.weekday().num_days_from_sunday(),
        zone: now.offset().to_string(),
    }
}

/// The text of the present local moment.
pub fn format_date() -> (r: String)
    ensures
        exists|t: LocalTime| t.wf() && is_offset_text(t.zone@) && #[trigger] date_text(t) == r@,
{
    let t = now_local();
    let r = format_local_time(&t);
    assert(t.wf() && is_offset_text(t.zone@) && date_text(t) == r@);
    r
}

/// `fixed_digits(n, w)` has exactly `w` characters.
pub proof fn lemma_fixed_digits_len(n: nat, w: nat)
    ensures
        fixed_digits(n, w).len() == w,
    decreases w,
{
    if w > 0 {
        lemma_fixed_digits_len(n / 10, (w - 1) as nat);
    }
}

/// The text of a moment holds that moment's weekday name first, its month
/// name after one space, then its day of the month in two digits (zero in
/// front below ten), and ends with its year.
pub proof fn lemma_date_text_fields(t: LocalTime)
    requires
        t.wf(),
    ensures
        date_text(t).subrange(0, 3) == weekday_name(t.weekday),
        date_text(t).subrange(4, 7) == month_name(t.month),
        date_text(t).subrange(8, 10) == fixed_digits(t.day as nat, 2),
        fixed_digits(t.day as nat, 2) == seq![
            digit_char((t.day / 10) as int),
            digit_char((t.day % 10) as int),
        ],
        date_text(t).len() >= year_text(t.year).len(),
        date_text(t).subrange(
            date_text(t).len() - year_text(t.year).len(),
            date_text(t).len() as int,
        ) == year_text(t.year),
{
    let w = weekday_name(t.weekday);
    let m = month_name(t.month);
    let d = fixed_digits(t.day as nat, 2);
    let y = year_text(t.year);
    let text = date_text(t);
    assert(w.len() == 3);
    assert(m.len() == 3);
    lemma_fixed_digits_len(t.day as nat, 2);
    reveal_with_fuel(fixed_digits, 3);
    assert(d =~= seq![digit_char((t.day / 10) as int), digit_char((t.day % 10) as int)]);
    let head = w + seq![' '] + m + seq![' '] + d;
    assert(head.len() == 10);
    let middle = seq![' '] + fixed_digits(hour12(t.hour), 2) + seq![':'] + fixed_digits(
        t.minute as nat,
        2,
    ) + seq![':'] + fixed_digits(shown_second(t), 2) + seq![' '] + am_pm(t.hour) + seq![' ']
        + t.zone@ + seq![' '];
    assert(text =~= head + middle + y);
    assert(text.subrange(0, 3) =~= w);
    assert(text.subrange(4, 7) =~= m);
    assert(text.subrange(8, 10) =~= d);
    assert(text.subrange(text.len() - y.len(), text.len() as int) =~= y);
}

} // verus!
