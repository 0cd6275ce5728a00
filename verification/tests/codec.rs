//! Tests of the identity token codec.

use backend::token::AdminId;
use backend::token::DecodeError;
use backend::token::Id;
use backend::token::ParticipantId;
use backend::token::u128_to_dec;

#[test]
fn encode_participant() {
    let id = Id::Participant(ParticipantId(123));
    assert_eq!(id.encode(), "P123");
}

#[test]
fn encode_admin() {
    let id = Id::Admin(AdminId(456));
    assert_eq!(id.encode(), "A456");
}

#[test]
fn encode_zero_and_max() {
    assert_eq!(Id::Participant(ParticipantId(0)).encode(), "P0");
    assert_eq!(
        Id::Admin(AdminId(u128::MAX)).encode(),
        "A340282366920938463463374607431768211455"
    );
}

#[test]
fn decimal_text_exact() {
    assert_eq!(u128_to_dec(0), "0");
    assert_eq!(u128_to_dec(7), "7");
    assert_eq!(u128_to_dec(12345), "12345");
    assert_eq!(u128_to_dec(1000), "1000");
    assert_eq!(
        u128_to_dec(u128::MAX),
        "340282366920938463463374607431768211455"
    );
}

#[test]
fn round_trip_participant() {
    let id = Id::Participant(ParticipantId(987654321987654321));
    assert_eq!(Id::decode(id.encode().as_str()), Ok(id));
}

#[test]
fn round_trip_admin() {
    let id = Id::Admin(AdminId(42));
    assert_eq!(Id::decode(id.encode().as_str()), Ok(id));
}

#[test]
fn round_trip_extremes() {
    for v in [0u128, 1, 9, 10, u128::MAX - 1, u128::MAX] {
        let p = Id::Participant(ParticipantId(v));
        assert_eq!(Id::decode(p.encode().as_str()), Ok(p));
        let a = Id::Admin(AdminId(v));
        assert_eq!(Id::decode(a.encode().as_str()), Ok(a));
    }
}

#[test]
fn decode_lower_case_tags() {
    assert_eq!(Id::decode("p123"), Ok(Id::Participant(ParticipantId(123))));
    assert_eq!(Id::decode("a456"), Ok(Id::Admin(AdminId(456))));
}

#[test]
fn decode_plus_sign_like_integer_parsing() {
    assert_eq!(Id::decode("P+123"), Ok(Id::Participant(ParticipantId(123))));
    assert_eq!(Id::decode("A+0"), Ok(Id::Admin(AdminId(0))));
    assert_eq!(Id::decode("P++1"), Err(DecodeError));
    assert_eq!(Id::decode("P+"), Err(DecodeError));
    assert_eq!(Id::decode("P-1"), Err(DecodeError));
}

#[test]
fn decode_rejects_empty_and_bad_tags() {
    assert_eq!(Id::decode(""), Err(DecodeError));
    assert_eq!(Id::decode("X999"), Err(DecodeError));
    assert_eq!(Id::decode("123"), Err(DecodeError));
    assert_eq!(Id::decode("B1"), Err(DecodeError));
}

#[test]
fn decode_rejects_bad_remainders() {
    assert_eq!(Id::decode("P"), Err(DecodeError));
    assert_eq!(Id::decode("A"), Err(DecodeError));
    assert_eq!(Id::decode("Pabc"), Err(DecodeError));
    assert_eq!(Id::decode("P12x"), Err(DecodeError));
    assert_eq!(Id::decode("P 1"), Err(DecodeError));
}

#[test]
fn decode_checks_the_128_bit_range() {
    assert_eq!(
        Id::decode("P340282366920938463463374607431768211455"),
        Ok(Id::Participant(ParticipantId(u128::MAX)))
    );
    assert_eq!(
        Id::decode("P340282366920938463463374607431768211456"),
        Err(DecodeError)
    );
    assert_eq!(
        Id::decode("A9999999999999999999999999999999999999999"),
        Err(DecodeError)
    );
}

#[test]
fn decode_accepts_leading_zeros() {
    assert_eq!(Id::decode("P007"), Ok(Id::Participant(ParticipantId(7))));
    assert_eq!(Id::decode("A000"), Ok(Id::Admin(AdminId(0))));
}
