use multiworld_protocol::client::{ClientMessage, Get, Say, SetRequest};
use multiworld_protocol::command::{ClientCommand, ServerCommand};
use multiworld_protocol::error::{MalformedReason, ProtocolError};
use multiworld_protocol::server::{Print, RoomUpdate, ServerMessage};
use multiworld_protocol::frame::{client_frame_of, server_frame_of};
use multiworld_protocol::wire::{client_command_of, server_command_of, tagged};
use serde_json::Value;

const UNKNOWN: ProtocolError = ProtocolError::MalformedMessage(MalformedReason::UnknownCommand);

fn json(text: &str) -> Value {
    serde_json::from_str(text).unwrap()
}

fn client_kinds() -> Vec<(ClientCommand, &'static str)> {
    vec![
        (ClientCommand::Connect, "Connect"),
        (ClientCommand::Sync, "Sync"),
        (ClientCommand::LocationChecks, "LocationChecks"),
        (ClientCommand::LocationScouts, "LocationScouts"),
        (ClientCommand::StatusUpdate, "StatusUpdate"),
        (ClientCommand::Say, "Say"),
        (ClientCommand::GetDataPackage, "GetDataPackage"),
        (ClientCommand::Bounce, "Bounce"),
        (ClientCommand::Get, "Get"),
        (ClientCommand::SetRequest, "Set"),
        (ClientCommand::SetNotify, "SetNotify"),
    ]
}

fn server_kinds() -> Vec<(ServerCommand, &'static str)> {
    vec![
        (ServerCommand::RoomInfo, "RoomInfo"),
        (ServerCommand::ConnectionRefused, "ConnectionRefused"),
        (ServerCommand::Connected, "Connected"),
        (ServerCommand::ReceivedItems, "ReceivedItems"),
        (ServerCommand::LocationInfo, "LocationInfo"),
        (ServerCommand::RoomUpdate, "RoomUpdate"),
        (ServerCommand::Print, "Print"),
        (ServerCommand::PrintJSON, "PrintJSON"),
        (ServerCommand::DataPackage, "DataPackage"),
        (ServerCommand::Bounced, "Bounced"),
        (ServerCommand::InvalidPacket, "InvalidPacket"),
        (ServerCommand::Retrieved, "Retrieved"),
        (ServerCommand::SetReply, "SetReply"),
    ]
}

#[test]
fn every_client_cmd_names_its_kind() {
    for (kind, name) in client_kinds() {
        assert_eq!(kind.name(), name);
        assert_eq!(ClientCommand::parse(name), Ok(kind));
    }
}

#[test]
fn every_server_cmd_names_its_kind() {
    for (kind, name) in server_kinds() {
        assert_eq!(kind.name(), name);
        assert_eq!(ServerCommand::parse(name), Ok(kind));
    }
}

#[test]
fn unlisted_cmd_is_malformed() {
    for name in ["", "say", "Say ", "Connected", "Unknown", "SetReply"] {
        assert_eq!(ClientCommand::parse(name), Err(UNKNOWN));
    }
    for name in ["", "print", "Connect", "Sync", "Set", "PrintJson"] {
        assert_eq!(ServerCommand::parse(name), Err(UNKNOWN));
    }
    assert_eq!(UNKNOWN.describe(), "malformed message: unknown command");
}

#[test]
fn a_message_carries_the_cmd_of_its_variant() {
    let say = ClientMessage::Say(Say { text: "hello".to_string() });
    assert_eq!(say.command(), ClientCommand::Say);
    assert_eq!(say.cmd(), "Say");
    assert_eq!(ClientMessage::Sync.cmd(), "Sync");
    let get = ClientMessage::Get(Get { keys: vec!["a".to_string()] });
    assert_eq!(get.cmd(), "Get");
    let set = ClientMessage::SetRequest(SetRequest {
        key: "k".to_string(),
        default: Value::Null,
        want_reply: false,
        operations: vec![],
    });
    assert_eq!(set.cmd(), "Set");
    let print = ServerMessage::Print(Print { text: "hi".to_string() });
    assert_eq!(print.command(), ServerCommand::Print);
    assert_eq!(print.cmd(), "Print");
}

#[test]
fn discriminator_is_read_from_among_the_fields() {
    assert_eq!(
        client_command_of(&json(r#"{"text":"hi","cmd":"Say"}"#)),
        Ok(ClientCommand::Say)
    );
    assert_eq!(client_command_of(&json(r#"{"cmd":"Sync"}"#)), Ok(ClientCommand::Sync));
    assert_eq!(client_command_of(&json(r#"{"cmd":"Set"}"#)), Ok(ClientCommand::SetRequest));
    assert_eq!(
        server_command_of(&json(r#"{"cmd":"RoomUpdate","checked_locations":[5]}"#)),
        Ok(ServerCommand::RoomUpdate)
    );
    for (kind, name) in server_kinds() {
        let message = json(&format!("{{\"cmd\":\"{name}\"}}"));
        assert_eq!(server_command_of(&message), Ok(kind));
        assert_eq!(client_command_of(&message).is_ok(), client_kinds().iter().any(|k| k.1 == name));
    }
}

#[test]
fn unlisted_discriminator_is_malformed() {
    assert_eq!(client_command_of(&json(r#"{"cmd":"Print","text":"x"}"#)), Err(UNKNOWN));
    assert_eq!(server_command_of(&json(r#"{"cmd":"Say","text":"x"}"#)), Err(UNKNOWN));
    assert_eq!(server_command_of(&json(r#"{"cmd":""}"#)), Err(UNKNOWN));
}

#[test]
fn absent_discriminator_is_a_missing_field() {
    let missing = ProtocolError::MalformedMessage(MalformedReason::MissingField);
    assert_eq!(client_command_of(&json(r#"{"text":"x"}"#)), Err(missing));
    assert_eq!(server_command_of(&json(r#"{}"#)), Err(missing));
    assert_eq!(server_command_of(&json(r#"["cmd"]"#)), Err(missing));
    assert_eq!(client_command_of(&json(r#""Say""#)), Err(missing));
    assert_eq!(missing.describe(), "malformed message: a required field is missing");
}

#[test]
fn discriminator_of_another_shape_is_malformed() {
    let shape = ProtocolError::MalformedMessage(MalformedReason::WrongShape);
    assert_eq!(client_command_of(&json(r#"{"cmd":5}"#)), Err(shape));
    assert_eq!(client_command_of(&json(r#"{"cmd":null}"#)), Err(shape));
    assert_eq!(server_command_of(&json(r#"{"cmd":["Print"]}"#)), Err(shape));
    assert_eq!(shape.describe(), "malformed message: a field has the wrong shape");
}

#[test]
fn sparse_room_update_keeps_absent_apart_from_empty() {
    let update = RoomUpdate {
        version: None,
        tags: None,
        password: None,
        permissions: None,
        hint_cost: None,
        location_check_points: None,
        games: None,
        datapackage_versions: None,
        seed_name: None,
        time: None,
        hint_points: None,
        players: None,
        checked_locations: Some(vec![5]),
        missing_locations: None,
    };
    assert_eq!(update.checked_locations, Some(vec![5]));
    assert!(update.version.is_none());
    assert!(update.tags.is_none());
    assert!(update.password.is_none());
    assert!(update.permissions.is_none());
    assert!(update.hint_cost.is_none());
    assert!(update.location_check_points.is_none());
    assert!(update.games.is_none());
    assert!(update.datapackage_versions.is_none());
    assert!(update.seed_name.is_none());
    assert!(update.time.is_none());
    assert!(update.hint_points.is_none());
    assert!(update.players.is_none());
    assert!(update.missing_locations.is_none());
    assert_ne!(update.missing_locations, Some(vec![]));
    assert_ne!(update.hint_cost, Some(0));
    assert_ne!(update.password, Some(false));
    assert_eq!(ServerMessage::RoomUpdate(update).cmd(), "RoomUpdate");
}

#[test]
fn cmd_is_put_among_the_fields() {
    let say = ClientMessage::Say(Say { text: "hi".to_string() });
    let message = say.with_cmd(json(r#"{"text":"hi"}"#)).unwrap();
    assert_eq!(message, json(r#"{"cmd":"Say","text":"hi"}"#));
    assert_eq!(client_command_of(&message), Ok(ClientCommand::Say));
    let sync = ClientMessage::Sync.with_cmd(json("{}")).unwrap();
    assert_eq!(sync.to_string(), r#"{"cmd":"Sync"}"#);
    let print = ServerMessage::Print(Print { text: "x".to_string() });
    let message = print.with_cmd(json(r#"{"text":"x","cmd":"Say"}"#)).unwrap();
    assert_eq!(message, json(r#"{"cmd":"Print","text":"x"}"#));
    assert_eq!(server_command_of(&message), Ok(ServerCommand::Print));
}

#[test]
fn only_an_object_takes_a_cmd() {
    let say = ClientMessage::Say(Say { text: "hi".to_string() });
    assert_eq!(say.with_cmd(json("[]")), None);
    assert_eq!(say.with_cmd(json("null")), None);
    assert_eq!(say.with_cmd(json("\"text\"")), None);
    assert_eq!(tagged(json("5"), "Say"), None);
    assert_eq!(tagged(json("{}"), "Say"), Some(json(r#"{"cmd":"Say"}"#)));
}

#[test]
fn tagged_payload_has_the_frame_of_its_kind() {
    let update = ServerMessage::RoomUpdate(RoomUpdate {
        version: None,
        tags: None,
        password: None,
        permissions: None,
        hint_cost: None,
        location_check_points: None,
        games: None,
        datapackage_versions: None,
        seed_name: None,
        time: None,
        hint_points: None,
        players: None,
        checked_locations: Some(vec![5]),
        missing_locations: None,
    });
    let message = update.with_cmd(json(r#"{"checked_locations":[5]}"#)).unwrap();
    assert_eq!(server_frame_of(&message), Ok(ServerCommand::RoomUpdate));
    let get = ClientMessage::Get(Get { keys: vec!["a".to_string()] });
    let message = get.with_cmd(json(r#"{"keys":["a"]}"#)).unwrap();
    assert_eq!(client_frame_of(&message), Ok(ClientCommand::Get));
}
