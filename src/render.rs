//! The two pages: an HTML document with the date and the temperature, and an
//! SVG icon with the temperature to one decimal.

use vstd::prelude::*;
use crate::text::{
    digit_char, fixed_digits, magnitude, magnitude_of, nat_text, push_fixed, push_nat, push_sign,
    sign_text,
};

verus! {

/// The placeholder shown where the temperature is unknown.
pub open spec fn unknown_text() -> Seq<char> {
    seq!['-', '-', '.', '-']
}

/// `m` micro-degrees in milli-degrees, halves rounded away from zero.
pub open spec fn rounded_milli(m: int) -> nat {
    (magnitude(m) + 500) / 1000
}

/// `m` micro-degrees as degrees with three decimals (`-1234500` is
/// `"-1.235"`).
pub open spec fn milli_text(m: int) -> Seq<char> {
    sign_text(m) + nat_text(rounded_milli(m) / 1000) + seq!['.'] + fixed_digits(
        rounded_milli(m) % 1000,
        3,
    )
}

/// `m` micro-degrees in tenths of a degree, halves rounded away from zero.
pub open spec fn rounded_tenths(m: int) -> nat {
    (magnitude(m) + 50_000) / 100_000
}

/// `m` micro-degrees as degrees with one decimal (`21449999` is `"21.4"`,
/// `21450000` is `"21.5"`).
pub open spec fn tenths_text(m: int) -> Seq<char> {
    sign_text(m) + nat_text(rounded_tenths(m) / 10) + seq!['.'] + seq![
        digit_char((rounded_tenths(m) % 10) as int),
    ]
}

/// The temperature as the page shows it: three decimals and the degree
/// entity, or the placeholder.
pub open spec fn page_temperature(reading: Option<i64>) -> Seq<char> {
    match reading {
        Some(m) => milli_text(m as int) + "&deg;C"@,
        None => unknown_text(),
    }
}

/// The temperature as the icon shows it: one decimal, or the placeholder.
pub open spec fn icon_temperature(reading: Option<i64>) -> Seq<char> {
    match reading {
        Some(m) => tenths_text(m as int),
        None => unknown_text(),
    }
}

/// The page up to the title's temperature.
pub const PAGE_HEAD: &'static str = r#"<!DOCTYPE html>
         <html>
         <head>
             <title>"#;

/// The page from after the title's temperature up to the date. It reloads
/// itself every ten seconds and points the icon at a fresh URL every three.
pub const PAGE_BEFORE_DATE: &'static str = r#" on FrambOS</title>
             <meta http-equiv="refresh" content="10">
             <link rel="icon" type="image/svg+xml" href="/favicon.svg?t=0">
             <script>
setInterval(() => {
    const link = document.querySelector("link[rel='icon']");
    link.href = `/favicon.svg?t=${Date.now()}`;
}, 3000);
</script>
         </head>
         <body>
             <h1>Temperature on FrambOS</h1>
             On FrambOS right now, the date is &laquo;"#;

/// The page between the date and the body's temperature.
pub const PAGE_AFTER_DATE: &'static str = "&raquo; and the temperature is ";

/// The page after the body's temperature.
pub const PAGE_TAIL: &'static str = r#"
         </body>
         </html>"#;

/// The icon up to its text.
pub const ICON_HEAD: &'static str = r#"<svg xmlns="http://www.w3.org/2000/svg" viewBox="0 0 64 64">
            <text x="50%" y="70%" text-anchor="middle"
                  font-size="32" font-family="monospace">"#;

/// The icon after its text.
pub const ICON_TAIL: &'static str = r#"</text>
        </svg>"#;

/// The content type of the page.
pub const PAGE_CONTENT_TYPE: &'static str = "text/html";

/// The content type of the icon.
pub const ICON_CONTENT_TYPE: &'static str = "image/svg+xml";

/// The caching policy of the icon: never kept.
pub const ICON_CACHE_CONTROL: &'static str = "no-store, no-cache, must-revalidate";

/// The whole page for a date text and a reading.
pub open spec fn page(date: Seq<char>, reading: Option<i64>) -> Seq<char> {
    PAGE_HEAD@ + page_temperature(reading) + PAGE_BEFORE_DATE@ + date + PAGE_AFTER_DATE@
        + page_temperature(reading) + PAGE_TAIL@
}

/// The whole icon for a reading.
pub open spec fn icon(reading: Option<i64>) -> Seq<char> {
    ICON_HEAD@ + icon_temperature(reading) + ICON_TAIL@
}

/// Appends the placeholder for an unknown temperature.
fn push_unknown(s: &mut String)
    ensures
        final(s)@ == old(s)@ + unknown_text(),
{
    proof { reveal_strlit("--.-"); }
    s.append("--.-");
}

/// Appends `"."`.
fn push_point(s: &mut String)
    ensures
        final(s)@ == old(s)@ + seq!['.'],
{
    proof { reveal_strlit("."); }
    s.append(".");
}

/// `m` micro-degrees as degrees with three decimals, halves rounded away
/// from zero.
pub fn three_decimals_text(m: i64) -> (r: String)
    ensures
        r@ == milli_text(m as int),
{
    let mut s = String::new();
    let milli = (magnitude_of(m) + 500) / 1000;
    push_sign(&mut s, m);
    push_nat(&mut s, milli / 1000);
    push_point(&mut s);
    push_fixed(&mut s, milli % 1000, 3);
    assert(s@ =~= milli_text(m as int));
    s
}

/// `m` micro-degrees as degrees with one decimal, halves rounded away from
/// zero.
pub fn one_decimal_text(m: i64) -> (r: String)
    ensures
        r@ == tenths_text(m as int),
{
    let mut s = String::new();
    let tenths = (magnitude_of(m) + 50_000) / 100_000;
    push_sign(&mut s, m);
    push_nat(&mut s, tenths / 10);
    push_point(&mut s);
    push_fixed(&mut s, tenths % 10, 1);
    proof {
        reveal_with_fuel(fixed_digits, 2);
    }
    assert(s@ =~= tenths_text(m as int));
    s
}

/// The temperature as the page shows it.
pub fn page_temperature_text(reading: Option<i64>) -> (r: String)
    ensures
        r@ == page_temperature(reading),
{
    match reading {
        Some(m) => {
            let mut s = three_decimals_text(m);
            s.append("&deg;C");
            s
        },
        None => {
            let mut s = String::new();
            push_unknown(&mut s);
            assert(s@ =~= unknown_text());
            s
        },
    }
}

/// The temperature as the icon shows it.
pub fn icon_temperature_text(reading: Option<i64>) -> (r: String)
    ensures
        r@ == icon_temperature(reading),
{
    match reading {
        Some(m) => one_decimal_text(m),
        None => {
            let mut s = String::new();
            push_unknown(&mut s);
            assert(s@ =~= unknown_text());
            s
        },
    }
}

/// The HTML page showing `date` and the reading.
pub fn index_page(date: &str, reading: Option<i64>) -> (r: String)
    ensures
        r@ == page(date@, reading),
{
    let temperature = page_temperature_text(reading);
    let mut s = String::from_str(PAGE_HEAD);
    s.append(temperature.as_str());
    s.append(PAGE_BEFORE_DATE);
    s.append(date);
    s.append(PAGE_AFTER_DATE);
    s.append(temperature.as_str());
    s.append(PAGE_TAIL);
    s
}

/// The SVG icon showing the reading.
pub fn favicon_svg(reading: Option<i64>) -> (r: String)
    ensures
        r@ == icon(reading),
{
    let temperature = icon_temperature_text(reading);
    let mut s = String::from_str(ICON_HEAD);
    s.append(temperature.as_str());
    s.append(ICON_TAIL);
    s
}

} // verus!
