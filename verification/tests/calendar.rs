use gbhwdb_backend::calendar::{week2, year1, year2, year2_u16, Year};
use gbhwdb_backend::error::ParseError;

#[test]
fn week_00_fails() {
    assert_eq!(week2("00"), Err(ParseError::Week("00".to_string())));
}

#[test]
fn week_54_fails() {
    assert_eq!(week2("54"), Err(ParseError::Week("54".to_string())));
}

#[test]
fn week_01_succeeds() {
    assert_eq!(week2("01"), Ok(1));
}

#[test]
fn week_52_succeeds() {
    assert_eq!(week2("52"), Ok(52));
}

#[test]
fn week_53_succeeds() {
    assert_eq!(week2("53"), Ok(53));
}

#[test]
fn week_malformed_fails() {
    assert_eq!(week2("5"), Err(ParseError::Week("5".to_string())));
    assert_eq!(week2("5x"), Err(ParseError::Week("5x".to_string())));
    assert_eq!(week2("123"), Err(ParseError::Week("123".to_string())));
    assert_eq!(week2(""), Err(ParseError::Week("".to_string())));
}

#[test]
fn year2_maps_into_production_window() {
    // every accepted two-digit fragment lands inside 1980-2009
    assert_eq!(year2("80"), Ok(Year::Full(1980)));
    assert_eq!(year2("89"), Ok(Year::Full(1989)));
    assert_eq!(year2("99"), Ok(Year::Full(1999)));
    assert_eq!(year2("00"), Ok(Year::Full(2000)));
    assert_eq!(year2("03"), Ok(Year::Full(2003)));
    assert_eq!(year2("09"), Ok(Year::Full(2009)));
}

#[test]
fn year2_rejects_unplaceable_values() {
    assert_eq!(year2("10"), Err(ParseError::Year("10".to_string())));
    assert_eq!(year2("45"), Err(ParseError::Year("45".to_string())));
    assert_eq!(year2("79"), Err(ParseError::Year("79".to_string())));
}

#[test]
fn year2_total_over_all_two_digit_fragments() {
    // total and deterministic: every fragment yields Ok-in-window or a typed failure
    for a in 0u32..10 {
        for b in 0u32..10 {
            let frag = format!("{}{}", a, b);
            match year2(frag.as_str()) {
                Ok(Year::Full(y)) => assert!((1980..=2009).contains(&y)),
                Ok(Year::Partial(_)) => panic!("two-digit fragment gave a partial year"),
                Err(ParseError::Year(f)) => assert_eq!(f, frag),
                Err(ParseError::Week(_)) => panic!("year conversion reported a week error"),
            }
            // deterministic across repeated calls
            assert_eq!(year2(frag.as_str()), year2(frag.as_str()));
        }
    }
}

#[test]
fn year2_malformed_fails() {
    assert_eq!(year2("9"), Err(ParseError::Year("9".to_string())));
    assert_eq!(year2("9a"), Err(ParseError::Year("9a".to_string())));
    assert_eq!(year2("1989"), Err(ParseError::Year("1989".to_string())));
}

#[test]
fn year2_u16_returns_bare_inferred_year() {
    assert_eq!(year2_u16("89"), Ok(1989));
    assert_eq!(year2_u16("02"), Ok(2002));
    assert_eq!(year2_u16("45"), Err(ParseError::Year("45".to_string())));
}

#[test]
fn year1_keeps_decade_open() {
    assert_eq!(year1("0"), Ok(Year::Partial(0)));
    assert_eq!(year1("9"), Ok(Year::Partial(9)));
}

#[test]
fn year1_malformed_fails() {
    assert_eq!(year1("x"), Err(ParseError::Year("x".to_string())));
    assert_eq!(year1("12"), Err(ParseError::Year("12".to_string())));
    assert_eq!(year1(""), Err(ParseError::Year("".to_string())));
}
