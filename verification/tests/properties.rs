use marc21::Leader;
use marc21::ParseLeaderError;
use marc21::leader::FieldError;
use marc21::leader::parse_record_len;

#[test]
fn decodes_positional_value_of_five_digits() {
    let leader = Leader::from_bytes(b"54321").unwrap();
    assert_eq!(
        leader.record_length(),
        5 * 10000 + 4 * 1000 + 3 * 100 + 2 * 10 + 1
    );

    let leader = Leader::from_bytes(b"00827").unwrap();
    assert_eq!(leader.record_length(), 827);
}

#[test]
fn short_input_fails_with_exact_shortfall() {
    assert_eq!(
        Leader::from_bytes(b""),
        Err(ParseLeaderError::Incomplete(5))
    );
    assert_eq!(
        Leader::from_bytes(b"1"),
        Err(ParseLeaderError::Incomplete(4))
    );
    assert_eq!(
        Leader::from_bytes(b"1234"),
        Err(ParseLeaderError::Incomplete(1))
    );
}

#[test]
fn short_input_is_incomplete_even_with_non_digits() {
    assert_eq!(
        Leader::from_bytes(b"-1"),
        Err(ParseLeaderError::Incomplete(3))
    );
    assert_eq!(
        Leader::from_bytes(b"xy"),
        Err(ParseLeaderError::Incomplete(3))
    );
}

#[test]
fn non_digit_in_window_is_invalid_record_length() {
    assert_eq!(
        Leader::from_bytes(b"-1000"),
        Err(ParseLeaderError::InvalidRecordLength)
    );
    assert_eq!(
        Leader::from_bytes(b"abcde"),
        Err(ParseLeaderError::InvalidRecordLength)
    );
    assert_eq!(
        Leader::from_bytes(b"1234:"),
        Err(ParseLeaderError::InvalidRecordLength)
    );
    assert_eq!(
        Leader::from_bytes(b"0000/"),
        Err(ParseLeaderError::InvalidRecordLength)
    );
    assert_eq!(
        Leader::from_bytes(b"12a456789"),
        Err(ParseLeaderError::InvalidRecordLength)
    );
}

#[test]
fn record_length_is_idempotent() {
    let leader = Leader::from_bytes(b"00123").unwrap();
    let first = leader.record_length();
    let second = leader.record_length();
    assert_eq!(first, 123);
    assert_eq!(first, second);
}

#[test]
fn boundary_values_decode() {
    assert_eq!(Leader::from_bytes(b"00000").unwrap().record_length(), 0);
    assert_eq!(Leader::from_bytes(b"99999").unwrap().record_length(), 99999);
}

#[test]
fn concrete_scenarios() {
    let leader = Leader::from_bytes(b"00123").unwrap();
    assert_eq!(leader.record_length(), 123);
    assert!(matches!(
        Leader::from_bytes(b"1234"),
        Err(ParseLeaderError::Incomplete(_))
    ));
    assert!(matches!(
        Leader::from_bytes(b"-1000"),
        Err(ParseLeaderError::InvalidRecordLength)
    ));
    assert_eq!(Leader::from_bytes(b"12345").unwrap().record_length(), 12345);
}

#[test]
fn trailing_bytes_stay_unconsumed() {
    let (rest, value) = parse_record_len(b"1234567").unwrap();
    assert_eq!(rest, b"67");
    assert_eq!(value, 12345);

    let leader = Leader::from_bytes(b"00123 extra bytes").unwrap();
    assert_eq!(leader.record_length(), 123);
}

#[test]
fn field_decoder_reports_first_offending_byte() {
    assert_eq!(parse_record_len(b"12-45"), Err(FieldError::NonDigit(2)));
    assert_eq!(parse_record_len(b"x2345"), Err(FieldError::NonDigit(0)));
    assert_eq!(parse_record_len(b"1234-"), Err(FieldError::NonDigit(4)));
}

#[test]
fn field_decoder_reports_shortfall() {
    assert_eq!(parse_record_len(b""), Err(FieldError::Incomplete(5)));
    assert_eq!(parse_record_len(b"123"), Err(FieldError::Incomplete(2)));
}
