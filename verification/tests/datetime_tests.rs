use camt_converter::datetime::{choose_datetime, convert_datetime, convert_datetime_to_date};

#[test]
fn date_of_timestamp_with_offset() {
    assert_eq!(convert_datetime_to_date("2025-06-20T00:00:00+02:00"), "2025-06-20");
}

#[test]
fn short_text_is_not_cut() {
    assert_eq!(convert_datetime_to_date("25-06-20"), "25-06-20");
}

#[test]
fn text_of_ten_characters_is_kept_whole() {
    assert_eq!(convert_datetime_to_date("2025-06-20"), "2025-06-20");
}

#[test]
fn empty_text_has_empty_date() {
    assert_eq!(convert_datetime_to_date(""), "");
}

#[test]
fn text_of_eleven_characters_loses_one() {
    assert_eq!(convert_datetime_to_date("2025-06-20T"), "2025-06-20");
}

#[test]
fn date_is_counted_in_characters() {
    assert_eq!(convert_datetime_to_date("日本語日本"), "日本語日本");
    assert_eq!(convert_datetime_to_date("äöüäöüäöüäöü"), "äöüäöüäöüä");
}

#[test]
fn fractional_seconds_are_dropped() {
    assert_eq!(convert_datetime("2025-06-22T17:33:43.291656435Z"), "2025-06-22T17:33:43+00:00");
}

#[test]
fn offset_is_kept() {
    assert_eq!(convert_datetime("2025-06-20T00:00:00+02:00"), "2025-06-20T00:00:00+02:00");
    assert_eq!(convert_datetime("2025-01-31T23:59:59-05:30"), "2025-01-31T23:59:59-05:30");
}

#[test]
fn offset_without_colon_falls_back_to_utc() {
    assert_eq!(convert_datetime("2012-12-12 12:12:12+0000"), "2012-12-12T12:12:12+02:00");
}

#[test]
fn text_that_is_no_timestamp_is_unchanged() {
    assert_eq!(convert_datetime("yesterday"), "yesterday");
    assert_eq!(convert_datetime(""), "");
    assert_eq!(convert_datetime("2025-06-20"), "2025-06-20");
}

#[test]
fn first_reading_wins() {
    assert_eq!(
        choose_datetime("given", Some("a".to_string()), Some("b".to_string())),
        "a"
    );
    assert_eq!(choose_datetime("given", None, Some("b".to_string())), "b");
    assert_eq!(choose_datetime("given", None, None), "given");
    assert_eq!(choose_datetime("given", Some("a".to_string()), None), "a");
}
