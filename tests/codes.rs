use sirena_codes::{
    AircraftCode, AircraftCodeParseError, AirlineCode, AirlineCodeParseError, AirportCode,
    AirportCodeParseError, CityCode, CityCodeParseError,
};

#[test]
fn test_encode_aircraft() {
    let a = "ПУ1";
    let code = AircraftCode::from_str(a).unwrap();
    println!("{:?}", code);
    assert_eq!(a, &code.as_str());
    assert_eq!(a, &code.as_str());
}

#[test]
fn aircraft_bytes_are_koi8r() {
    let code = AircraftCode::from_str("ПУ1").unwrap();
    assert_eq!(code.as_bytes(), &[0xF0u8, 0xF5, 0x31][..]);
}

#[test]
fn aircraft_parses_through_from_str_trait() {
    let code: AircraftCode = "ТУ5".parse().unwrap();
    assert_eq!(code.as_str(), "ТУ5");
}

#[test]
fn airline_letter_and_digit() {
    let code = AirlineCode::from_str("А5").unwrap();
    assert_eq!(code.as_str(), "А5");
    assert_eq!(code.as_bytes(), &[0xE1u8, 0x35][..]);
}

#[test]
fn airline_two_letters() {
    let code = AirlineCode::from_str("СУ").unwrap();
    assert_eq!(code.as_str(), "СУ");
}

#[test]
fn airline_two_digits() {
    assert_eq!(AirlineCode::from_str("56"), Err(AirlineCodeParseError::TooManyDigits(2)));
}

#[test]
fn airline_wrong_length() {
    assert_eq!(AirlineCode::from_str("АБВ"), Err(AirlineCodeParseError::InvalidLength(3)));
    assert_eq!(AirlineCode::from_str(""), Err(AirlineCodeParseError::InvalidLength(0)));
}

#[test]
fn airline_bad_letter_before_digit_count() {
    assert_eq!(AirlineCode::from_str("5z"), Err(AirlineCodeParseError::InvalidLetter('z')));
}

#[test]
fn airport_latin_letters() {
    assert_eq!(AirportCode::from_str("AAA"), Err(AirportCodeParseError::InvalidLetter('A')));
}

#[test]
fn airport_first_offender_is_reported() {
    assert_eq!(AirportCode::from_str("Дab"), Err(AirportCodeParseError::InvalidLetter('a')));
}

#[test]
fn airport_round_trip() {
    let code = AirportCode::from_str("ДМД").unwrap();
    assert_eq!(code.as_str(), "ДМД");
    let back = AirportCode::from_bytes_unchecked(code.as_bytes());
    assert_eq!(back, code);
}

#[test]
fn city_too_short() {
    assert_eq!(CityCode::from_str("МО"), Err(CityCodeParseError::InvalidLength(2)));
}

#[test]
fn city_counts_characters_not_bytes() {
    assert_eq!(CityCode::from_str("МОСК"), Err(CityCodeParseError::InvalidLength(4)));
}

#[test]
fn city_with_yo_and_digit() {
    let code = CityCode::from_str("ЁЖ7").unwrap();
    assert_eq!(code.as_str(), "ЁЖ7");
    assert_eq!(code.as_bytes(), &[0xB3u8, 0xF6, 0x37][..]);
}

#[test]
fn lowercase_is_rejected() {
    assert_eq!(CityCode::from_str("мос"), Err(CityCodeParseError::InvalidLetter('м')));
    assert_eq!(AircraftCode::from_str("Ту1"), Err(AircraftCodeParseError::InvalidLetter('у')));
}

#[test]
fn equal_texts_give_equal_codes() {
    let a = CityCode::from_str("МОВ").unwrap();
    let b = CityCode::from_str("МОВ").unwrap();
    let c = CityCode::from_str("ЛЕД").unwrap();
    assert_eq!(a, b);
    assert_ne!(a, c);
}

#[test]
fn byte_order_marks_decode_as_letters() {
    let code = AirlineCode::from_str("ЧЪ").unwrap();
    assert_eq!(code.as_bytes(), &[0xFEu8, 0xFF][..]);
    assert_eq!(code.as_str(), "ЧЪ");
    let code = AirlineCode::from_str("ЪЧ").unwrap();
    assert_eq!(code.as_str(), "ЪЧ");
}

#[test]
fn unchecked_bytes_decode_without_check() {
    let code = CityCode::from_bytes_unchecked(&[0x41, 0x42, 0x43]);
    assert_eq!(code.as_str(), "ABC");
    assert!(CityCode::from_str(&code.as_str()).is_err());
}
