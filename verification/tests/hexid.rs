use evmcall::hexid::{Address, IdParseError, ObjectId};

const SAMPLE: &str = "0x0123456789abcdef0123456789abcdef01234567";
const SAMPLE_BYTES: [u8; 20] = [
    0x01, 0x23, 0x45, 0x67, 0x89, 0xab, 0xcd, 0xef, 0x01, 0x23, 0x45, 0x67, 0x89, 0xab, 0xcd,
    0xef, 0x01, 0x23, 0x45, 0x67,
];

#[test]
fn parse_object_id_with_prefix() {
    let id = ObjectId::parse(SAMPLE).unwrap();
    assert_eq!(id.bytes().as_slice(), &SAMPLE_BYTES);
}

#[test]
fn parse_object_id_without_prefix() {
    let id = ObjectId::parse("0123456789abcdef0123456789abcdef01234567").unwrap();
    assert_eq!(id.bytes().as_slice(), &SAMPLE_BYTES);
}

#[test]
fn parse_object_id_uppercase_digits() {
    let id = ObjectId::parse("0x0123456789ABCDEF0123456789ABCDEF01234567").unwrap();
    assert_eq!(id.bytes().as_slice(), &SAMPLE_BYTES);
}

#[test]
fn parse_object_id_rejects_short_text() {
    assert_eq!(ObjectId::parse("0x0123"), Err(IdParseError::WrongLength));
}

#[test]
fn parse_object_id_rejects_empty_text() {
    assert_eq!(ObjectId::parse(""), Err(IdParseError::WrongLength));
}

#[test]
fn parse_object_id_rejects_long_text() {
    assert_eq!(
        ObjectId::parse("0x0123456789abcdef0123456789abcdef0123456789"),
        Err(IdParseError::WrongLength)
    );
}

#[test]
fn parse_object_id_rejects_bad_digit() {
    assert_eq!(
        ObjectId::parse("0x0123456789abcdef0123456789abcdef0123456g"),
        Err(IdParseError::InvalidDigit)
    );
}

#[test]
fn parse_error_descriptions() {
    assert_eq!(IdParseError::WrongLength.describe(), "invalid length");
    assert_eq!(IdParseError::InvalidDigit.describe(), "invalid hex digit");
}

#[test]
fn object_id_to_text_is_canonical() {
    let id = ObjectId::parse("0123456789ABCDEF0123456789ABCDEF01234567").unwrap();
    assert_eq!(id.to_text(), SAMPLE);
}

#[test]
fn object_id_round_trip() {
    let id = ObjectId::from_bytes(SAMPLE_BYTES.to_vec());
    let text = id.to_text();
    let back = ObjectId::parse(&text).unwrap();
    assert_eq!(back, id);
}

#[test]
fn parse_address_with_prefix() {
    let a = Address::parse(SAMPLE).unwrap();
    assert_eq!(a.bytes().as_slice(), &SAMPLE_BYTES);
    assert_eq!(a.to_text(), SAMPLE);
}

#[test]
fn parse_address_rejects_bad_digit() {
    assert_eq!(
        Address::parse("0123456789abcdef0123456789abcdef0123456z"),
        Err(IdParseError::InvalidDigit)
    );
}
