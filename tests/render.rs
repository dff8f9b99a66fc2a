use temp_server::render::{
    favicon_svg, icon_temperature_text, index_page, one_decimal_text, page_temperature_text,
    three_decimals_text,
};

#[test]
fn unknown_renders_placeholder() {
    let page = index_page("Mon Jan 02 03:04:05 PM +00:00 2024", None);
    assert!(page.contains("the temperature is --.-"));
    assert!(page.contains("<title>--.- on FrambOS</title>"));
    assert!(!page.contains("NaN"));
    let icon = favicon_svg(None);
    assert!(icon.contains(">--.-</text>"));
    assert!(!icon.contains("NaN"));
}

#[test]
fn known_reading_renders_three_and_one_decimals() {
    let page = index_page("Mon Jan 02 03:04:05 PM +00:00 2024", Some(21_400_000));
    assert!(page.contains("the temperature is 21.400&deg;C"));
    assert!(page.contains("<title>21.400&deg;C on FrambOS</title>"));
    assert!(page.contains("&laquo;Mon Jan 02 03:04:05 PM +00:00 2024&raquo;"));
    let icon = favicon_svg(Some(21_400_000));
    assert!(icon.contains(">21.4</text>"));
}

#[test]
fn page_has_refresh_and_icon_link() {
    let page = index_page("d", Some(0));
    assert!(page.starts_with("<!DOCTYPE html>"));
    assert!(page.contains("<meta http-equiv=\"refresh\" content=\"10\">"));
    assert!(page.contains("href=\"/favicon.svg?t=0\""));
    assert!(page.contains("link.href = `/favicon.svg?t=${Date.now()}`;"));
    assert!(page.contains("}, 3000);"));
    assert!(page.ends_with("</html>"));
}

#[test]
fn icon_is_whole_svg() {
    let icon = favicon_svg(Some(-5_250_000));
    assert_eq!(
        icon,
        "<svg xmlns=\"http://www.w3.org/2000/svg\" viewBox=\"0 0 64 64\">\n            <text x=\"50%\" y=\"70%\" text-anchor=\"middle\"\n                  font-size=\"32\" font-family=\"monospace\">-5.3</text>\n        </svg>"
    );
}

#[test]
fn three_decimals() {
    assert_eq!(three_decimals_text(23_562_000), "23.562");
    assert_eq!(three_decimals_text(-1_250_500), "-1.251");
    assert_eq!(three_decimals_text(-1_250_499), "-1.250");
    assert_eq!(three_decimals_text(5_000), "0.005");
    assert_eq!(three_decimals_text(0), "0.000");
    assert_eq!(three_decimals_text(-50_000), "-0.050");
    assert_eq!(three_decimals_text(999_999_500), "1000.000");
    assert_eq!(three_decimals_text(i64::MAX), "9223372036854.776");
    assert_eq!(three_decimals_text(i64::MIN), "-9223372036854.776");
}

#[test]
fn one_decimal_rounds_halves_away_from_zero() {
    assert_eq!(one_decimal_text(21_400_000), "21.4");
    assert_eq!(one_decimal_text(21_449_999), "21.4");
    assert_eq!(one_decimal_text(21_450_000), "21.5");
    assert_eq!(one_decimal_text(29_999_999), "30.0");
    assert_eq!(one_decimal_text(-21_450_000), "-21.5");
    assert_eq!(one_decimal_text(-40_000), "-0.0");
    assert_eq!(one_decimal_text(0), "0.0");
    assert_eq!(one_decimal_text(i64::MIN), "-9223372036854.8");
}

#[test]
fn temperature_fragments() {
    assert_eq!(page_temperature_text(Some(21_400_000)), "21.400&deg;C");
    assert_eq!(page_temperature_text(None), "--.-");
    assert_eq!(icon_temperature_text(Some(21_400_000)), "21.4");
    assert_eq!(icon_temperature_text(None), "--.-");
}
