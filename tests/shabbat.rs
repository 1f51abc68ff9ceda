use hebcal::error::{classify, is_success, Reply};
use hebcal::shabbat::options::{Coordinate, Geo, Leyning, ParamKey, Transliteration};
use hebcal::shabbat::response::{
    decode_item_date, decode_shabbat, decode_timestamp, item_date_from, DateTime, Location, RawItem, RawShabbat, Shabbat,
};
use hebcal::shabbat::ShabbatHandler;
use hebcal::{DecodeError, Error, HebCalError};

fn pairs(h: &ShabbatHandler) -> Vec<(String, String)> {
    h.query()
        .into_iter()
        .map(|(k, v)| (k.name().to_string(), v))
        .collect()
}

fn has(p: &[(String, String)], k: &str, v: &str) -> bool {
    p.iter().any(|(a, b)| a == k && b == v)
}

fn has_key(p: &[(String, String)], k: &str) -> bool {
    p.iter().any(|(a, _)| a == k)
}

fn at(year: i32, month: u32, day: u32, hour: u32, minute: u32, second: u32) -> DateTime {
    DateTime { year, month, day, hour, minute, second }
}

fn sample_result() -> Shabbat {
    Shabbat {
        title: Some("Hebcal Berkeley June 2001".to_string()),
        date: at(2023, 6, 9, 12, 0, 0),
        location: Location {
            title: "Berkeley, CA 94706".to_string(),
            city: "Berkeley".to_string(),
            tzid: "America/Los_Angeles".to_string(),
            latitude: Coordinate { micro_degrees: 37_889_000 },
            longitude: Coordinate { micro_degrees: -122_297_000 },
            cc: "US".to_string(),
            country: "United States".to_string(),
            admin1: "CA".to_string(),
            geo: "zip".to_string(),
            geonameid: None,
        },
        items: vec![],
    }
}

#[test]
fn test_shabbat_handler() {
    let h = ShabbatHandler::new()
        .zip("94706")
        .gregorian_month(6u32)
        .gregorian_year(2001)
        .gregorian_day(13u32);
    let p = pairs(&h);
    let expected: Vec<(String, String)> = vec![
        ("cfg", "json"),
        ("geo", "zip"),
        ("zip", "94706"),
        ("gy", "2001"),
        ("gm", "6"),
        ("gd", "13"),
    ]
    .into_iter()
    .map(|(k, v)| (k.to_string(), v.to_string()))
    .collect();
    assert_eq!(p, expected);
}

#[test]
fn empty_builder_sends_only_format_flag() {
    let p = pairs(&ShabbatHandler::new());
    assert_eq!(p, vec![("cfg".to_string(), "json".to_string())]);
}

#[test]
fn coordinate_field_after_zip_selects_pos() {
    for h in [
        ShabbatHandler::new().zip("94706").tzid("America/Los_Angeles"),
        ShabbatHandler::new().zip("94706").latitude(Coordinate { micro_degrees: 31_769_040 }),
        ShabbatHandler::new().zip("94706").longitude(Coordinate { micro_degrees: 35_216_330 }),
    ] {
        let p = pairs(&h);
        assert!(has(&p, "geo", "pos"));
        assert!(!has(&p, "geo", "zip"));
        assert!(has(&p, "zip", "94706"));
        assert_eq!(h.options.geo, Some(Geo::Pos));
    }
}

#[test]
fn last_location_field_wins() {
    let h = ShabbatHandler::new().tzid("Asia/Jerusalem").city("GB-London");
    let p = pairs(&h);
    assert!(has(&p, "geo", "city"));
    assert!(has(&p, "city", "GB-London"));
    assert!(has(&p, "tzid", "Asia/Jerusalem"));
    let h = ShabbatHandler::new().city("GB-London").geoname_id(281184u32);
    let p = pairs(&h);
    assert!(has(&p, "geo", "geoname"));
    assert!(has(&p, "geonameid", "281184"));
}

#[test]
fn zero_is_sent_and_unset_is_absent() {
    let h = ShabbatHandler::new().havdalah(0u16).gregorian_year(0);
    let p = pairs(&h);
    assert!(has(&p, "m", "0"));
    assert!(has(&p, "gy", "0"));
    for k in ["b", "a", "leyning", "geo", "geonameid", "zip", "city", "latitude", "longitude", "tzid", "gm", "gd"] {
        assert!(!has_key(&p, k), "{k} should be absent");
    }
}

#[test]
fn display_preferences_on_the_wire() {
    let h = ShabbatHandler::new()
        .havdalah(50u16)
        .minutes_before_sunset(18u16)
        .transliteration(Transliteration::Ashkenazic)
        .leyning(Leyning::Off);
    let p = pairs(&h);
    assert!(has(&p, "m", "50"));
    assert!(has(&p, "b", "18"));
    assert!(has(&p, "a", "on"));
    assert!(has(&p, "leyning", "off"));
    let p = pairs(&ShabbatHandler::new().transliteration(Transliteration::Sephardic).leyning(Leyning::On));
    assert!(has(&p, "a", "off"));
    assert!(has(&p, "leyning", "on"));
}

#[test]
fn explicit_geo_and_extreme_values() {
    let h = ShabbatHandler::new()
        .geo(Geo::City)
        .gregorian_year(-3761)
        .gregorian_month(4294967295u32)
        .havdalah(65535u16);
    let p = pairs(&h);
    assert!(has(&p, "geo", "city"));
    assert!(has(&p, "gy", "-3761"));
    assert!(has(&p, "gm", "4294967295"));
    assert!(has(&p, "m", "65535"));
}

#[test]
fn coordinates_in_decimal_degrees() {
    let h = ShabbatHandler::new()
        .latitude(Coordinate { micro_degrees: -23_547_500 })
        .longitude(Coordinate { micro_degrees: 5 });
    let p = pairs(&h);
    assert!(has(&p, "latitude", "-23.547500"));
    assert!(has(&p, "longitude", "0.000005"));
    assert_eq!(Coordinate { micro_degrees: i32::MIN }.to_text(), "-2147.483648");
    assert_eq!(ParamKey::GregorianDay.name(), "gd");
}

#[test]
fn item_date_with_offset() {
    let d = decode_item_date("2023-06-09T19:30:00-07:00").unwrap();
    assert_eq!(d, at(2023, 6, 9, 19, 30, 0));
}

#[test]
fn item_date_bare_is_midnight() {
    let d = decode_item_date("2023-06-09").unwrap();
    assert_eq!(d, at(2023, 6, 9, 0, 0, 0));
}

#[test]
fn item_date_in_neither_format_is_decode_error() {
    let e = decode_item_date("June 9th").unwrap_err();
    assert_eq!(e.message, "unrecognized timestamp: June 9th");
    assert!(decode_item_date("").is_err());
}

#[test]
fn item_date_choice_prefers_full_reading() {
    assert_eq!(item_date_from(Some((2023, 6, 9, 19, 30, 0)), Some((2020, 1, 1))), Some(at(2023, 6, 9, 19, 30, 0)));
    assert_eq!(item_date_from(None, Some((2020, 1, 2))), Some(at(2020, 1, 2, 0, 0, 0)));
    assert_eq!(item_date_from(None, None), None);
}

#[test]
fn reply_timestamp_is_read_as_utc() {
    let d = decode_timestamp("2023-06-09T19:30:00-07:00").unwrap();
    assert_eq!(d, at(2023, 6, 10, 2, 30, 0));
    assert!(decode_timestamp("2023-06-09").is_err());
}

#[test]
fn service_error_reply_is_service_error() {
    let body = HebCalError { error: "Unable to parse address".to_string() };
    match classify(400, Reply::Failure(Ok(body))) {
        Err(Error::HebCal { error }) => {
            assert_eq!(error.error, "Unable to parse address");
            assert_eq!(error.to_text(), "Error: Unable to parse address");
        }
        other => panic!("expected a service error, got {other:?}"),
    }
}

#[test]
fn malformed_success_body_is_decode_error() {
    let e = DecodeError { message: "expected value at line 1 column 1".to_string() };
    match classify(200, Reply::Payload(Err(e))) {
        Err(Error::Decode(d)) => assert_eq!(d.message, "expected value at line 1 column 1"),
        other => panic!("expected a decode error, got {other:?}"),
    }
}

#[test]
fn malformed_error_body_is_decode_error() {
    let e = DecodeError { message: "missing field `error`".to_string() };
    assert!(matches!(classify(500, Reply::Failure(Err(e))), Err(Error::Decode(_))));
}

#[test]
fn success_body_is_the_result() {
    let r = classify(200, Reply::Payload(Ok(sample_result()))).unwrap();
    assert_eq!(r.location.city, "Berkeley");
    assert_eq!(r.date, at(2023, 6, 9, 12, 0, 0));
}

#[test]
fn body_shape_against_status_is_unknown() {
    assert!(matches!(classify(404, Reply::Payload(Ok(sample_result()))), Err(Error::Unknown)));
    let body = HebCalError { error: "x".to_string() };
    assert!(matches!(classify(204, Reply::Failure(Ok(body))), Err(Error::Unknown)));
}

#[test]
fn success_statuses() {
    assert!(is_success(200));
    assert!(is_success(299));
    assert!(!is_success(199));
    assert!(!is_success(300));
    assert!(!is_success(400));
}

fn raw_item(title: &str, date: &str) -> RawItem {
    RawItem {
        title: title.to_string(),
        date: date.to_string(),
        category: Some("candles".to_string()),
        subcat: None,
        hebrew: "הדלקת נרות".to_string(),
        link: None,
        memo: None,
        title_orig: None,
        yomtov: None,
        leyning: None,
    }
}

fn raw_reply(date: &str, items: Vec<RawItem>) -> RawShabbat {
    let base = sample_result();
    RawShabbat { title: base.title, date: date.to_string(), location: base.location, items }
}

#[test]
fn reply_items_keep_order_and_read_both_formats() {
    let raw = raw_reply(
        "2023-06-09T19:30:00Z",
        vec![
            raw_item("Candle lighting", "2023-06-09T19:30:00-07:00"),
            raw_item("Parashat Beha'alotcha", "2023-06-10"),
            raw_item("Havdalah", "2023-06-10T21:01:00-07:00"),
        ],
    );
    let s = decode_shabbat(raw).unwrap();
    assert_eq!(s.date, at(2023, 6, 9, 19, 30, 0));
    let titles: Vec<&str> = s.items.iter().map(|i| i.title.as_str()).collect();
    assert_eq!(titles, vec!["Candle lighting", "Parashat Beha'alotcha", "Havdalah"]);
    assert_eq!(s.items[0].date, at(2023, 6, 9, 19, 30, 0));
    assert_eq!(s.items[1].date, at(2023, 6, 10, 0, 0, 0));
    assert_eq!(s.items[2].date, at(2023, 6, 10, 21, 1, 0));
    assert_eq!(s.items[1].category.as_deref(), Some("candles"));
    assert_eq!(s.location.city, "Berkeley");
}

#[test]
fn reply_with_no_items() {
    let s = decode_shabbat(raw_reply("2001-06-13T00:00:00+00:00", vec![])).unwrap();
    assert!(s.items.is_empty());
    assert_eq!(s.date, at(2001, 6, 13, 0, 0, 0));
}

#[test]
fn first_unreadable_item_date_is_the_error() {
    let raw = raw_reply(
        "2023-06-09T19:30:00Z",
        vec![
            raw_item("a", "2023-06-09"),
            raw_item("b", "tomorrow"),
            raw_item("c", "06/10/2023"),
        ],
    );
    let e = decode_shabbat(raw).unwrap_err();
    assert_eq!(e.message, "unrecognized timestamp: tomorrow");
}

#[test]
fn unreadable_reply_date_is_the_error() {
    let raw = raw_reply("2023-06-09", vec![raw_item("b", "tomorrow")]);
    let e = decode_shabbat(raw).unwrap_err();
    assert_eq!(e.message, "unrecognized timestamp: 2023-06-09");
}

#[test]
fn time_zone_alone_leaves_coordinates_incomplete() {
    let h = ShabbatHandler::new().tzid("America/Los_Angeles");
    assert!(h.options.coordinates_incomplete());
    assert!(has(&pairs(&h), "geo", "pos"));
    let h = h
        .latitude(Coordinate { micro_degrees: 34_052_230 })
        .longitude(Coordinate { micro_degrees: -118_243_680 });
    assert!(!h.options.coordinates_incomplete());
    assert!(!ShabbatHandler::new().zip("94706").options.coordinates_incomplete());
}
