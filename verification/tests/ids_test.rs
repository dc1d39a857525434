use collab_integrate::ids::{Uuid, UuidError};

#[test]
fn hyphenated_text_of_a_value() {
    let id = Uuid::from_u128(0xa1a2a3a4b1b2c1c2d1d2d3d4d5d6d7d8);
    assert_eq!(id.to_text(), "a1a2a3a4-b1b2-c1c2-d1d2-d3d4d5d6d7d8");
}

#[test]
fn hyphenated_text_of_zero_and_max() {
    assert_eq!(Uuid::from_u128(0).to_text(), "00000000-0000-0000-0000-000000000000");
    assert_eq!(Uuid::from_u128(u128::MAX).to_text(), "ffffffff-ffff-ffff-ffff-ffffffffffff");
}

#[test]
fn hyphenated_text_has_the_most_significant_digit_first() {
    let id = Uuid::from_u128(0x1000_0000_0000_0000_0000_0000_0000_000f);
    assert_eq!(id.to_text(), "10000000-0000-0000-0000-00000000000f");
    assert_eq!(id.to_text().len(), 36);
}

#[test]
fn parse_reads_the_hyphenated_form() {
    let parsed = Uuid::parse_str("550e8400-e29b-41d4-a716-446655440000");
    assert_eq!(parsed, Ok(Uuid::from_u128(0x550e8400e29b41d4a716446655440000)));
    assert_eq!(parsed.unwrap().as_u128(), 0x550e8400e29b41d4a716446655440000);
}

#[test]
fn parse_reads_the_simple_and_the_upper_case_form() {
    let value = 0x550e8400e29b41d4a716446655440000u128;
    assert_eq!(Uuid::parse_str("550e8400e29b41d4a716446655440000"), Ok(Uuid::from_u128(value)));
    assert_eq!(
        Uuid::parse_str("550E8400-E29B-41D4-A716-446655440000"),
        Ok(Uuid::from_u128(value))
    );
}

#[test]
fn parse_refuses_what_is_no_identifier() {
    assert_eq!(Uuid::parse_str(""), Err(UuidError::Malformed));
    assert_eq!(Uuid::parse_str("not-a-uuid"), Err(UuidError::Malformed));
    assert_eq!(
        Uuid::parse_str("550e8400-e29b-41d4-a716-44665544000g"),
        Err(UuidError::Malformed)
    );
    assert_eq!(
        Uuid::parse_str("550e8400-e29b-41d4-a716-4466554400"),
        Err(UuidError::Malformed)
    );
}

#[test]
fn text_and_parse_round_trip() {
    let values = [0u128, 1, 0xdead_beef, u128::MAX, 0x0123_4567_89ab_cdef_0123_4567_89ab_cdef];
    for value in values {
        let id = Uuid::from_u128(value);
        assert_eq!(Uuid::parse_str(&id.to_text()), Ok(id));
    }
}
