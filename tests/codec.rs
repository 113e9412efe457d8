use wmata::error::{EmptyIdentifierError, ErrorKind, StringIsNotLineError, StringIsNotStationError};
use wmata::json::{parse_json, Json};
use wmata::rail::responses::Lines;
use wmata::requests::{deserialize, settle};
use wmata::{Date, Line, Route, Station, Stop};

#[test]
fn every_line_round_trips() {
    let all = [
        Line::Red, Line::Blue, Line::Yellow, Line::YellowLineRushPlus, Line::Orange, Line::Green,
        Line::Silver,
    ];
    for line in all {
        assert_eq!(Line::from_str(&line.to_string()), Ok(line));
    }
    assert_eq!(Line::YellowLineRushPlus.to_string(), "YLRP");
    assert_eq!(Line::Red.color(), "#4CAA61");
}

#[test]
fn unknown_line_codes_are_refused() {
    for s in ["", "rd", "RDX", "XX", "YLR", "YLRPX"] {
        assert_eq!(Line::from_str(s), Err(StringIsNotLineError));
    }
}

#[test]
fn stations_round_trip_and_refuse_the_rest() {
    assert_eq!(Station::A01.to_string(), "A01");
    assert_eq!(Station::from_str("N06"), Ok(Station::N06));
    assert_eq!(Station::from_str(&Station::B35.to_string()), Ok(Station::B35));
    for s in ["", "A00", "C11", "a01", "A011", "N05", "Z99"] {
        assert_eq!(Station::from_str(s), Err(StringIsNotStationError));
    }
}

#[test]
fn empty_open_identifiers_are_refused() {
    assert!(matches!(Route::from_str(""), Err(EmptyIdentifierError)));
    assert!(matches!(Stop::from_str(""), Err(EmptyIdentifierError)));
    assert_eq!(Route::from_str("10A").unwrap(), Route::new("10A"));
    assert_eq!(Stop::from_str("1001195").unwrap().to_string(), "1001195");
}

#[test]
fn dates_are_zero_padded() {
    assert_eq!(Date::new(2019, 10, 2).to_string(), "2019-10-02");
    assert_eq!(Date::new(7, 1, 31).to_string(), "0007-01-31");
    assert_eq!(Date::new(65535, 12, 9).to_string(), "65535-12-09");
}

#[test]
fn json_text_is_read_into_the_model() {
    match parse_json("{\"A\":[1,2.5,\"x\",null,true]}").unwrap() {
        Json::Object(members) => {
            assert_eq!(members[0].0, "A");
            match &members[0].1 {
                Json::Array(items) => {
                    assert!(matches!(items[0], Json::Number(Some(1), _)));
                    assert!(matches!(&items[1], Json::Number(None, t) if t == "2.5"));
                    assert!(matches!(&items[2], Json::Str(s) if s == "x"));
                    assert!(matches!(items[3], Json::Null));
                    assert!(matches!(items[4], Json::Bool(true)));
                }
                _ => panic!("not an array"),
            }
        }
        _ => panic!("not an object"),
    }
    assert!(parse_json("{").is_err());
}

#[test]
fn shape_first_then_envelope() {
    let ok: Result<i32, String> = Ok(5);
    assert_eq!(settle(ok, "{\"Message\":\"ignored\"}").unwrap(), 5);

    let e = settle::<i32>(Err("first".to_string()), "{\"Message\":\"API key not valid\"}").unwrap_err();
    assert_eq!(e.kind, ErrorKind::Api);
    assert_eq!(e.message, "API key not valid");

    let e = settle::<i32>(Err("first".to_string()), "{\"Message\":3}").unwrap_err();
    assert_eq!(e.kind, ErrorKind::Malformed);
    assert_eq!(e.message, "first");

    let e = settle::<i32>(Err("first".to_string()), "not json").unwrap_err();
    assert_eq!(e.kind, ErrorKind::Malformed);
    assert_eq!(e.message, "first");
}

#[test]
fn a_body_of_the_expected_shape_wins_over_an_envelope_field() {
    let body = "{\"Lines\":[],\"Message\":\"should not matter\"}";
    assert_eq!(deserialize::<Lines>(body).unwrap().lines.len(), 0);
}

#[test]
fn syntax_errors_are_malformed() {
    let e = deserialize::<Lines>("<html>").unwrap_err();
    assert_eq!(e.kind, ErrorKind::Malformed);
    assert!(!e.message.is_empty());
}
