use multiworld_protocol::error::{MalformedReason, ProtocolError};
use multiworld_protocol::values::{ClientStatus, Permission, SlotType};
use multiworld_protocol::wire::code_of;
use serde_json::Value;

const SHAPE: ProtocolError = ProtocolError::MalformedMessage(MalformedReason::WrongShape);
const RANGE: ProtocolError = ProtocolError::MalformedMessage(MalformedReason::CodeOutOfRange);

fn json(text: &str) -> Value {
    serde_json::from_str(text).unwrap()
}

#[test]
fn enumerations_encode_as_numbers() {
    assert_eq!(Permission::Auto.to_json(), json("6"));
    assert_eq!(Permission::AutoEnabled.to_json().to_string(), "7");
    assert_eq!(SlotType::Group.to_json(), json("2"));
    assert_eq!(ClientStatus::ClientGoal.to_json(), json("30"));
    assert_eq!(ClientStatus::ClientUnknown.to_json().to_string(), "0");
}

#[test]
fn enumerations_decode_from_numbers() {
    assert_eq!(Permission::from_json(&json("0")), Ok(Permission::Disabled));
    assert_eq!(Permission::from_json(&json("7")), Ok(Permission::AutoEnabled));
    assert_eq!(SlotType::from_json(&json("1")), Ok(SlotType::Player));
    assert_eq!(ClientStatus::from_json(&json("20")), Ok(ClientStatus::ClientPlaying));
    assert_eq!(code_of(&json("65535")), Ok(65535));
}

#[test]
fn enumerations_survive_the_trip_through_json() {
    for p in [
        Permission::Disabled,
        Permission::Enabled,
        Permission::Goal,
        Permission::Auto,
        Permission::AutoEnabled,
    ] {
        assert_eq!(Permission::from_json(&p.to_json()), Ok(p));
    }
    for t in [SlotType::Spectator, SlotType::Player, SlotType::Group] {
        assert_eq!(SlotType::from_json(&t.to_json()), Ok(t));
    }
    for s in [
        ClientStatus::ClientUnknown,
        ClientStatus::ClientConnected,
        ClientStatus::ClientReady,
        ClientStatus::ClientPlaying,
        ClientStatus::ClientGoal,
    ] {
        assert_eq!(ClientStatus::from_json(&s.to_json()), Ok(s));
    }
}

#[test]
fn unknown_integer_is_a_decode_error() {
    assert_eq!(Permission::from_json(&json("3")), Err(RANGE));
    assert_eq!(SlotType::from_json(&json("3")), Err(RANGE));
    assert_eq!(ClientStatus::from_json(&json("15")), Err(RANGE));
    assert_eq!(ClientStatus::from_json(&json("65536")), Err(RANGE));
    assert_eq!(code_of(&json("18446744073709551615")), Err(RANGE));
}

#[test]
fn a_name_or_a_fraction_is_no_code() {
    assert_eq!(Permission::from_json(&json("\"Auto\"")), Err(SHAPE));
    assert_eq!(SlotType::from_json(&json("1.0")), Err(SHAPE));
    assert_eq!(ClientStatus::from_json(&json("-5")), Err(SHAPE));
    assert_eq!(ClientStatus::from_json(&json("null")), Err(SHAPE));
    assert_eq!(code_of(&json("[1]")), Err(SHAPE));
}
