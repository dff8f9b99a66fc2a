use temp_server::sensor::parse_reading;

fn lines(a: &str, b: &str) -> Vec<String> {
    vec![a.to_string(), b.to_string()]
}

#[test]
fn parses_a_valid_reading() {
    let l = lines("72 01 4b 46 7f ff 0e 10 57 : crc=57 YES", "72 01 4b 46 7f ff 0e 10 57 t=23562");
    let r = parse_reading(&l);
    assert_eq!(r, Some(23_562_000));
    let degrees = r.unwrap() as f64 / 1_000_000.0;
    assert!((degrees - 23.562).abs() < 0.001);
}

#[test]
fn missing_verdict_gives_no_reading() {
    let l = lines("72 01 4b 46 7f ff 0e 10 57 : crc=57 NO", "72 01 4b 46 7f ff 0e 10 57 t=23562");
    assert_eq!(parse_reading(&l), None);
}

#[test]
fn too_few_lines_give_no_reading() {
    assert_eq!(parse_reading(&vec![]), None);
    assert_eq!(parse_reading(&vec!["crc=57 YES".to_string()]), None);
}

#[test]
fn verdict_must_end_the_first_line() {
    assert_eq!(parse_reading(&lines("YES crc=57", "t=100")), None);
    assert_eq!(parse_reading(&lines("crc=57 YES ", "t=100")), None);
    assert_eq!(parse_reading(&lines("YES", "t=100")), Some(100_000));
}

#[test]
fn second_line_needs_marker_and_number() {
    assert_eq!(parse_reading(&lines("YES", "72 01 4b 46")), None);
    assert_eq!(parse_reading(&lines("YES", "t=")), None);
    assert_eq!(parse_reading(&lines("YES", "t=12a")), None);
    assert_eq!(parse_reading(&lines("YES", "t=-")), None);
}

#[test]
fn signs_and_white_space() {
    assert_eq!(parse_reading(&lines("YES", "ff t=-1250")), Some(-1_250_000));
    assert_eq!(parse_reading(&lines("YES", "ff t=+7")), Some(7_000));
    assert_eq!(parse_reading(&lines("YES", "ff t=  42 \t")), Some(42_000));
    assert_eq!(parse_reading(&lines("YES", "ff t=0")), Some(0));
}

#[test]
fn field_stops_at_a_second_marker() {
    assert_eq!(parse_reading(&lines("YES", "t=15t=99")), Some(15_000));
}

#[test]
fn extra_lines_are_ignored() {
    let l = vec!["a YES".to_string(), "b t=30000".to_string(), "t=1".to_string()];
    assert_eq!(parse_reading(&l), Some(30_000_000));
}

#[test]
fn decimal_readings_keep_their_fraction() {
    assert_eq!(parse_reading(&lines("aa YES", "bb t=  -1250.5  ")), Some(-1_250_500));
    assert_eq!(parse_reading(&lines("YES", "t=23562.125")), Some(23_562_125));
    assert_eq!(parse_reading(&lines("YES", "t=1.")), Some(1_000));
    assert_eq!(parse_reading(&lines("YES", "t=.5")), Some(500));
    assert_eq!(parse_reading(&lines("YES", "t=+0.25")), Some(250));
    assert_eq!(parse_reading(&lines("YES", "t=.")), None);
    assert_eq!(parse_reading(&lines("YES", "t=1.2.3")), None);
    assert_eq!(parse_reading(&lines("YES", "t=1e3")), None);
}

#[test]
fn fraction_rounds_at_the_fourth_digit() {
    assert_eq!(parse_reading(&lines("YES", "t=1.2345")), Some(1_235));
    assert_eq!(parse_reading(&lines("YES", "t=1.23449")), Some(1_234));
    assert_eq!(parse_reading(&lines("YES", "t=-0.0005")), Some(-1));
    assert_eq!(parse_reading(&lines("YES", "t=0.9999")), Some(1_000));
}

#[test]
fn values_past_i64_give_no_reading() {
    assert_eq!(parse_reading(&lines("YES", "t=9223372036854775.807")), Some(i64::MAX));
    assert_eq!(parse_reading(&lines("YES", "t=-9223372036854775.808")), Some(i64::MIN));
    assert_eq!(parse_reading(&lines("YES", "t=9223372036854775.808")), None);
    assert_eq!(parse_reading(&lines("YES", "t=-9223372036854775.809")), None);
    assert_eq!(parse_reading(&lines("YES", "t=9223372036854775807")), None);
    assert_eq!(parse_reading(&lines("YES", "t=123456789012345678901234567890")), None);
}
