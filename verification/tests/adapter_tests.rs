use weather_station::directions::{match_direction, translate_cardinal_point};
use weather_station::locations::{AWSLocation, ForecastLocation};
use weather_station::utils::hhmm_to_timestamp_millis;

#[test]
fn cardinal_points_translate_in_any_case() {
    assert_eq!(translate_cardinal_point("N".to_string()).unwrap(), "북");
    assert_eq!(translate_cardinal_point("nne".to_string()).unwrap(), "북북동");
    assert_eq!(translate_cardinal_point("Ne".to_string()).unwrap(), "북동");
    assert_eq!(translate_cardinal_point("ene".to_string()).unwrap(), "동북동");
    assert_eq!(translate_cardinal_point("e".to_string()).unwrap(), "동");
    assert_eq!(translate_cardinal_point("ESE".to_string()).unwrap(), "동남동");
    assert_eq!(translate_cardinal_point("se".to_string()).unwrap(), "남동");
    assert_eq!(translate_cardinal_point("sse".to_string()).unwrap(), "남남동");
    assert_eq!(translate_cardinal_point("S".to_string()).unwrap(), "남");
    assert_eq!(translate_cardinal_point("ssw".to_string()).unwrap(), "남남서");
    assert_eq!(translate_cardinal_point("sw".to_string()).unwrap(), "남서");
    assert_eq!(translate_cardinal_point("wsw".to_string()).unwrap(), "서남서");
    assert_eq!(translate_cardinal_point("w".to_string()).unwrap(), "서");
    assert_eq!(translate_cardinal_point("wnw".to_string()).unwrap(), "서북서");
    assert_eq!(translate_cardinal_point("nw".to_string()).unwrap(), "북서");
    assert_eq!(translate_cardinal_point("NNW".to_string()).unwrap(), "북북서");
}

#[test]
fn unknown_points_translate_to_nothing() {
    assert!(translate_cardinal_point("".to_string()).is_none());
    assert!(translate_cardinal_point("Q".to_string()).is_none());
    assert!(translate_cardinal_point("NNEE".to_string()).is_none());
    assert!(translate_cardinal_point("EN".to_string()).is_none());
    assert!(translate_cardinal_point("북".to_string()).is_none());
}

#[test]
fn match_direction_takes_uppercase_only() {
    assert_eq!(match_direction("NNE").unwrap(), "북북동");
    assert!(match_direction("nne").is_none());
}

#[test]
fn station_codes_and_names() {
    assert_eq!(AWSLocation::Wontong.code(), 321);
    assert_eq!(AWSLocation::Seohwa.code(), 594);
    assert_eq!(AWSLocation::Jinburyeong.code(), 595);
    assert_eq!(AWSLocation::Hyangnobong.code(), 320);
    assert_eq!(AWSLocation::Inje.code(), 211);
    assert_eq!(AWSLocation::Haean.code(), 518);
    assert_eq!(AWSLocation::Wontong.to_string(), "원통");
    assert_eq!(AWSLocation::Jinburyeong.to_string(), "진부령");
    assert_eq!(ForecastLocation::Wontong.code(), 4281032000);
    assert_eq!(ForecastLocation::Sudong.code(), 4282034000);
    assert_eq!(ForecastLocation::Wontong.to_string(), "원통");
    assert_eq!(ForecastLocation::Sudong.to_string(), "수동");
}

#[test]
fn hhmm_extraction_finds_the_first_clock_time() {
    // The extracted time is placed on today's local date, so only relations
    // between results are stable: the same clock time extracted from
    // different text gives the same instant.
    let a = hhmm_to_timestamp_millis("12:34").unwrap();
    let b = hhmm_to_timestamp_millis("observed at 12:34 today").unwrap();
    assert_eq!(a, b);
    let first = hhmm_to_timestamp_millis("01:02 then 03:04").unwrap();
    let lone = hhmm_to_timestamp_millis("01:02").unwrap();
    assert_eq!(first, lone);
}

#[test]
fn hhmm_extraction_rejects_text_without_a_valid_time() {
    assert!(hhmm_to_timestamp_millis("").is_none());
    assert!(hhmm_to_timestamp_millis("no clock here").is_none());
    assert!(hhmm_to_timestamp_millis("9:5").is_none());
    assert!(hhmm_to_timestamp_millis("99:99").is_none());
    assert!(hhmm_to_timestamp_millis("12:61").is_none());
}
