//! The schema as data: for every compound value and every message payload,
//! its fields by their wire names, the shape that each is declared with, and
//! whether it may be absent.

use vstd::prelude::*;
use crate::command::{ClientCommand, ServerCommand};

verus! {

/// An enumeration that travels as its numeric code.
#[derive(Clone, Copy, Debug, PartialEq, Eq, Structural)]
pub enum CodeTable {
    Permission,
    SlotType,
    ClientStatus,
}

/// The declared shape of one JSON value.
#[derive(Clone, Copy, Debug, PartialEq, Eq, Structural)]
pub enum Shape {
    /// An arbitrary JSON tree; `null` is one.
    Any,
    Flag,
    /// An integer that fits in 32 bits, signed.
    Integer,
    /// Any JSON number.
    Number,
    Text,
    Code(CodeTable),
    Record(Record),
}

impl Shape {
    /// How deep records nest in a value of this shape.
    pub open spec fn nesting(self) -> nat {
        match self {
            Shape::Record(record) => record.nesting(),
            _ => 0,
        }
    }
}

/// Whether a field holds one value of its shape, a list of them, or an
/// object whose members all have that shape.
#[derive(Clone, Copy, Debug, PartialEq, Eq, Structural)]
pub enum Container {
    Single,
    ListOf,
    MapOf,
}

/// One field of a record. A field that is not required may be absent or
/// `null`: both mean "not provided".
#[derive(Clone, Copy, Debug, PartialEq, Eq)]
pub struct Field {
    pub name: &'static str,
    pub shape: Shape,
    pub container: Container,
    pub required: bool,
}

/// The compound values and message payloads of the protocol.
#[derive(Clone, Copy, Debug, PartialEq, Eq, Structural)]
pub enum Record {
    /// The payload of `Sync`: no field.
    Sync,
    NetworkVersion,
    NetworkPlayer,
    NetworkItem,
    NetworkSlot,
    Connect,
    ConnectUpdate,
    LocationChecks,
    LocationScouts,
    StatusUpdate,
    Say,
    GetDataPackage,
    Bounce,
    Get,
    SetRequest,
    DataStorageOperation,
    SetNotify,
    PermissionsMap,
    RoomInfo,
    ConnectionRefused,
    Connected,
    ReceivedItems,
    LocationInfo,
    RoomUpdate,
    Print,
    PrintJSON,
    Hint,
    JSONMessagePart,
    DataPackage,
    DataPackageObject,
    GameData,
    Bounced,
    InvalidPacket,
    Retrieved,
    SetReply,
}

impl Record {
    /// How deep records nest in this one, itself counted.
    pub open spec fn nesting(self) -> nat {
        match self {
            Record::DataPackage => 3,
            Record::Connect
            | Record::SetRequest
            | Record::RoomInfo
            | Record::Connected
            | Record::ReceivedItems
            | Record::LocationInfo
            | Record::RoomUpdate
            | Record::PrintJSON
            | Record::DataPackageObject
            | Record::Bounced => 2,
            _ => 1,
        }
    }

    /// The fields of this record, in the order of their declaration.
    pub open spec fn fields_spec(self) -> Seq<Field> {
        match self {
            Record::Sync => Seq::empty(),
            Record::NetworkVersion => seq![
                Field { name: "major", shape: Shape::Integer, container: Container::Single, required: true },
                Field { name: "minor", shape: Shape::Integer, container: Container::Single, required: true },
                Field { name: "build", shape: Shape::Integer, container: Container::Single, required: true },
                Field { name: "class", shape: Shape::Text, container: Container::Single, required: true },
            ],
            Record::NetworkPlayer => seq![
                Field { name: "team", shape: Shape::Integer, container: Container::Single, required: true },
                Field { name: "slot", shape: Shape::Integer, container: Container::Single, required: true },
                Field { name: "alias", shape: Shape::Text, container: Container::Single, required: true },
                Field { name: "name", shape: Shape::Text, container: Container::Single, required: true },
            ],
            Record::NetworkItem => seq![
                Field { name: "item", shape: Shape::Integer, container: Container::Single, required: true },
                Field { name: "location", shape: Shape::Integer, container: Container::Single, required: true },
                Field { name: "player", shape: Shape::Integer, container: Container::Single, required: true },
                Field { name: "flags", shape: Shape::Integer, container: Container::Single, required: true },
            ],
            Record::NetworkSlot => seq![
                Field { name: "name", shape: Shape::Text, container: Container::Single, required: true },
                Field { name: "game", shape: Shape::Text, container: Container::Single, required: true },
                Field { name: "type", shape: Shape::Code(CodeTable::SlotType), container: Container::Single, required: true },
                Field { name: "group_members", shape: Shape::Integer, container: Container::ListOf, required: true },
            ],
            Record::Connect => seq![
                Field { name: "password", shape: Shape::Text, container: Container::Single, required: false },
                Field { name: "name", shape: Shape::Text, container: Container::Single, required: true },
                Field { name: "version", shape: Shape::Record(Record::NetworkVersion), container: Container::Single, required: true },
                Field { name: "items_handling", shape: Shape::Integer, container: Container::Single, required: false },
                Field { name: "tags", shape: Shape::Text, container: Container::ListOf, required: true },
                Field { name: "uuid", shape: Shape::Text, container: Container::Single, required: true },
                Field { name: "game", shape: Shape::Text, container: Container::Single, required: true },
                Field { name: "slot_data", shape: Shape::Flag, container: Container::Single, required: true },
            ],
            Record::ConnectUpdate => seq![
                Field { name: "items_handling", shape: Shape::Integer, container: Container::Single, required: true },
                Field { name: "tags", shape: Shape::Text, container: Container::ListOf, required: true },
            ],
            Record::LocationChecks => seq![
                Field { name: "locations", shape: Shape::Integer, container: Container::ListOf, required: true },
            ],
            Record::LocationScouts => seq![
                Field { name: "locations", shape: Shape::Integer, container: Container::ListOf, required: true },
                Field { name: "create_as_hint", shape: Shape::Integer, container: Container::Single, required: true },
            ],
            Record::StatusUpdate => seq![
                Field { name: "status", shape: Shape::Code(CodeTable::ClientStatus), container: Container::Single, required: true },
            ],
            Record::Say => seq![
                Field { name: "text", shape: Shape::Text, container: Container::Single, required: true },
            ],
            Record::GetDataPackage => seq![
                Field { name: "games", shape: Shape::Text, container: Container::ListOf, required: false },
            ],
            Record::Bounce => seq![
                Field { name: "games", shape: Shape::Text, container: Container::ListOf, required: false },
                Field { name: "slots", shape: Shape::Text, container: Container::ListOf, required: false },
                Field { name: "tags", shape: Shape::Text, container: Container::ListOf, required: false },
                Field { name: "data", shape: Shape::Any, container: Container::Single, required: true },
            ],
            Record::Get => seq![
                Field { name: "keys", shape: Shape::Text, container: Container::ListOf, required: true },
            ],
            Record::SetRequest => seq![
                Field { name: "key", shape: Shape::Text, container: Container::Single, required: true },
                Field { name: "default", shape: Shape::Any, container: Container::Single, required: true },
                Field { name: "want_reply", shape: Shape::Flag, container: Container::Single, required: true },
                Field { name: "operations", shape: Shape::Record(Record::DataStorageOperation), container: Container::ListOf, required: true },
            ],
            Record::DataStorageOperation => seq![
                Field { name: "replace", shape: Shape::Text, container: Container::Single, required: true },
                Field { name: "value", shape: Shape::Any, container: Container::Single, required: true },
            ],
            Record::SetNotify => seq![
                Field { name: "keys", shape: Shape::Text, container: Container::ListOf, required: true },
            ],
            Record::PermissionsMap => seq![
                Field { name: "release", shape: Shape::Code(CodeTable::Permission), container: Container::Single, required: true },
                Field { name: "collect", shape: Shape::Code(CodeTable::Permission), container: Container::Single, required: true },
                Field { name: "remaining", shape: Shape::Code(CodeTable::Permission), container: Container::Single, required: true },
            ],
            Record::RoomInfo => seq![
                Field { name: "version", shape: Shape::Record(Record::NetworkVersion), container: Container::Single, required: true },
                Field { name: "generator_version", shape: Shape::Record(Record::NetworkVersion), container: Container::Single, required: true },
                Field { name: "tags", shape: Shape::Text, container: Container::ListOf, required: true },
                Field { name: "password", shape: Shape::Flag, container: Container::Single, required: true },
                Field { name: "permissions", shape: Shape::Record(Record::PermissionsMap), container: Container::Single, required: true },
                Field { name: "hint_cost", shape: Shape::Integer, container: Container::Single, required: true },
                Field { name: "location_check_points", shape: Shape::Integer, container: Container::Single, required: true },
                Field { name: "games", shape: Shape::Text, container: Container::ListOf, required: false },
                Field { name: "datapackage_checksums", shape: Shape::Text, container: Container::MapOf, required: true },
                Field { name: "seed_name", shape: Shape::Text, container: Container::Single, required: true },
                Field { name: "time", shape: Shape::Number, container: Container::Single, required: true },
            ],
            Record::ConnectionRefused => seq![
                Field { name: "errors", shape: Shape::Text, container: Container::ListOf, required: true },
            ],
            Record::Connected => seq![
                Field { name: "team", shape: Shape::Integer, container: Container::Single, required: true },
                Field { name: "slot", shape: Shape::Integer, container: Container::Single, required: true },
                Field { name: "players", shape: Shape::Record(Record::NetworkPlayer), container: Container::ListOf, required: true },
                Field { name: "missing_locations", shape: Shape::Integer, container: Container::ListOf, required: true },
                Field { name: "checked_locations", shape: Shape::Integer, container: Container::ListOf, required: true },
                Field { name: "slot_data", shape: Shape::Any, container: Container::Single, required: true },
                Field { name: "slot_info", shape: Shape::Record(Record::NetworkSlot), container: Container::MapOf, required: true },
            ],
            Record::ReceivedItems => seq![
                Field { name: "index", shape: Shape::Integer, container: Container::Single, required: true },
                Field { name: "items", shape: Shape::Record(Record::NetworkItem), container: Container::ListOf, required: true },
            ],
            Record::LocationInfo => seq![
                Field { name: "locations", shape: Shape::Record(Record::NetworkItem), container: Container::ListOf, required: true },
            ],
            Record::RoomUpdate => seq![
                Field { name: "version", shape: Shape::Record(Record::NetworkVersion), container: Container::Single, required: false },
                Field { name: "tags", shape: Shape::Text, container: Container::ListOf, required: false },
                Field { name: "password", shape: Shape::Flag, container: Container::Single, required: false },
                Field { name: "permissions", shape: Shape::Code(CodeTable::Permission), container: Container::MapOf, required: false },
                Field { name: "hint_cost", shape: Shape::Integer, container: Container::Single, required: false },
                Field { name: "location_check_points", shape: Shape::Integer, container: Container::Single, required: false },
                Field { name: "games", shape: Shape::Text, container: Container::ListOf, required: false },
                Field { name: "datapackage_versions", shape: Shape::Integer, container: Container::MapOf, required: false },
                Field { name: "seed_name", shape: Shape::Text, container: Container::Single, required: false },
                Field { name: "time", shape: Shape::Number, container: Container::Single, required: false },
                Field { name: "hint_points", shape: Shape::Integer, container: Container::Single, required: false },
                Field { name: "players", shape: Shape::Record(Record::NetworkPlayer), container: Container::ListOf, required: false },
                Field { name: "checked_locations", shape: Shape::Integer, container: Container::ListOf, required: false },
                Field { name: "missing_locations", shape: Shape::Integer, container: Container::ListOf, required: false },
            ],
            Record::Print => seq![
                Field { name: "text", shape: Shape::Text, container: Container::Single, required: true },
            ],
            Record::PrintJSON => seq![
                Field { name: "data", shape: Shape::Record(Record::JSONMessagePart), container: Container::ListOf, required: true },
                Field { name: "type", shape: Shape::Text, container: Container::Single, required: false },
                Field { name: "receiving", shape: Shape::Integer, container: Container::Single, required: false },
                Field { name: "item", shape: Shape::Record(Record::NetworkItem), container: Container::Single, required: false },
                Field { name: "found", shape: Shape::Flag, container: Container::Single, required: false },
                Field { name: "countdown", shape: Shape::Integer, container: Container::Single, required: false },
            ],
            Record::Hint => seq![
                Field { name: "receiving_player", shape: Shape::Integer, container: Container::Single, required: true },
                Field { name: "finding_player", shape: Shape::Integer, container: Container::Single, required: true },
                Field { name: "location", shape: Shape::Integer, container: Container::Single, required: true },
                Field { name: "item", shape: Shape::Integer, container: Container::Single, required: true },
                Field { name: "found", shape: Shape::Flag, container: Container::Single, required: true },
                Field { name: "entrance", shape: Shape::Text, container: Container::Single, required: true },
                Field { name: "item_flags", shape: Shape::Integer, container: Container::Single, required: true },
            ],
            Record::JSONMessagePart => seq![
                Field { name: "type", shape: Shape::Text, container: Container::Single, required: false },
                Field { name: "text", shape: Shape::Text, container: Container::Single, required: false },
                Field { name: "color", shape: Shape::Text, container: Container::Single, required: false },
                Field { name: "flags", shape: Shape::Integer, container: Container::Single, required: false },
                Field { name: "player", shape: Shape::Integer, container: Container::Single, required: false },
            ],
            Record::DataPackage => seq![
                Field { name: "data", shape: Shape::Record(Record::DataPackageObject), container: Container::Single, required: true },
            ],
            Record::DataPackageObject => seq![
                Field { name: "games", shape: Shape::Record(Record::GameData), container: Container::MapOf, required: true },
            ],
            Record::GameData => seq![
                Field { name: "item_name_to_id", shape: Shape::Integer, container: Container::MapOf, required: true },
                Field { name: "location_name_to_id", shape: Shape::Integer, container: Container::MapOf, required: true },
            ],
            Record::Bounced => seq![
                Field { name: "games", shape: Shape::Text, container: Container::ListOf, required: false },
                Field { name: "slots", shape: Shape::Integer, container: Container::ListOf, required: false },
                Field { name: "tags", shape: Shape::Text, container: Container::ListOf, required: false },
                Field { name: "data", shape: Shape::Record(Record::Bounce), container: Container::Single, required: true },
            ],
            Record::InvalidPacket => seq![
                Field { name: "type", shape: Shape::Text, container: Container::Single, required: true },
                Field { name: "original_cmd", shape: Shape::Text, container: Container::Single, required: false },
                Field { name: "text", shape: Shape::Text, container: Container::Single, required: true },
            ],
            Record::Retrieved => seq![
                Field { name: "keys", shape: Shape::Any, container: Container::MapOf, required: true },
            ],
            Record::SetReply => seq![
                Field { name: "key", shape: Shape::Text, container: Container::Single, required: true },
                Field { name: "value", shape: Shape::Any, container: Container::Single, required: true },
                Field { name: "original_value", shape: Shape::Any, container: Container::Single, required: true },
            ],
        }
    }

    pub fn fields(&self) -> (r: Vec<Field>)
        ensures
            r@ == self.fields_spec(),
    {
        let r: Vec<Field> = match self {
            Record::Sync => Vec::new(),
            Record::NetworkVersion => vec![
                Field { name: "major", shape: Shape::Integer, container: Container::Single, required: true },
                Field { name: "minor", shape: Shape::Integer, container: Container::Single, required: true },
                Field { name: "build", shape: Shape::Integer, container: Container::Single, required: true },
                Field { name: "class", shape: Shape::Text, container: Container::Single, required: true },
            ],
            Record::NetworkPlayer => vec![
                Field { name: "team", shape: Shape::Integer, container: Container::Single, required: true },
                Field { name: "slot", shape: Shape::Integer, container: Container::Single, required: true },
                Field { name: "alias", shape: Shape::Text, container: Container::Single, required: true },
                Field { name: "name", shape: Shape::Text, container: Container::Single, required: true },
            ],
            Record::NetworkItem => vec![
                Field { name: "item", shape: Shape::Integer, container: Container::Single, required: true },
                Field { name: "location", shape: Shape::Integer, container: Container::Single, required: true },
                Field { name: "player", shape: Shape::Integer, container: Container::Single, required: true },
                Field { name: "flags", shape: Shape::Integer, container: Container::Single, required: true },
            ],
            Record::NetworkSlot => vec![
                Field { name: "name", shape: Shape::Text, container: Container::Single, required: true },
                Field { name: "game", shape: Shape::Text, container: Container::Single, required: true },
                Field { name: "type", shape: Shape::Code(CodeTable::SlotType), container: Container::Single, required: true },
                Field { name: "group_members", shape: Shape::Integer, container: Container::ListOf, required: true },
            ],
            Record::Connect => vec![
                Field { name: "password", shape: Shape::Text, container: Container::Single, required: false },
                Field { name: "name", shape: Shape::Text, container: Container::Single, required: true },
                Field { name: "version", shape: Shape::Record(Record::NetworkVersion), container: Container::Single, required: true },
                Field { name: "items_handling", shape: Shape::Integer, container: Container::Single, required: false },
                Field { name: "tags", shape: Shape::Text, container: Container::ListOf, required: true },
                Field { name: "uuid", shape: Shape::Text, container: Container::Single, required: true },
                Field { name: "game", shape: Shape::Text, container: Container::Single, required: true },
                Field { name: "slot_data", shape: Shape::Flag, container: Container::Single, required: true },
            ],
            Record::ConnectUpdate => vec![
                Field { name: "items_handling", shape: Shape::Integer, container: Container::Single, required: true },
                Field { name: "tags", shape: Shape::Text, container: Container::ListOf, required: true },
            ],
            Record::LocationChecks => vec![
                Field { name: "locations", shape: Shape::Integer, container: Container::ListOf, required: true },
            ],
            Record::LocationScouts => vec![
                Field { name: "locations", shape: Shape::Integer, container: Container::ListOf, required: true },
                Field { name: "create_as_hint", shape: Shape::Integer, container: Container::Single, required: true },
            ],
            Record::StatusUpdate => vec![
                Field { name: "status", shape: Shape::Code(CodeTable::ClientStatus), container: Container::Single, required: true },
            ],
            Record::Say => vec![
                Field { name: "text", shape: Shape::Text, container: Container::Single, required: true },
            ],
            Record::GetDataPackage => vec![
                Field { name: "games", shape: Shape::Text, container: Container::ListOf, required: false },
            ],
            Record::Bounce => vec![
                Field { name: "games", shape: Shape::Text, container: Container::ListOf, required: false },
                Field { name: "slots", shape: Shape::Text, container: Container::ListOf, required: false },
                Field { name: "tags", shape: Shape::Text, container: Container::ListOf, required: false },
                Field { name: "data", shape: Shape::Any, container: Container::Single, required: true },
            ],
            Record::Get => vec![
                Field { name: "keys", shape: Shape::Text, container: Container::ListOf, required: true },
            ],
            Record::SetRequest => vec![
                Field { name: "key", shape: Shape::Text, container: Container::Single, required: true },
                Field { name: "default", shape: Shape::Any, container: Container::Single, required: true },
                Field { name: "want_reply", shape: Shape::Flag, container: Container::Single, required: true },
                Field { name: "operations", shape: Shape::Record(Record::DataStorageOperation), container: Container::ListOf, required: true },
            ],
            Record::DataStorageOperation => vec![
                Field { name: "replace", shape: Shape::Text, container: Container::Single, required: true },
                Field { name: "value", shape: Shape::Any, container: Container::Single, required: true },
            ],
            Record::SetNotify => vec![
                Field { name: "keys", shape: Shape::Text, container: Container::ListOf, required: true },
            ],
            Record::PermissionsMap => vec![
                Field { name: "release", shape: Shape::Code(CodeTable::Permission), container: Container::Single, required: true },
                Field { name: "collect", shape: Shape::Code(CodeTable::Permission), container: Container::Single, required: true },
                Field { name: "remaining", shape: Shape::Code(CodeTable::Permission), container: Container::Single, required: true },
            ],
            Record::RoomInfo => vec![
                Field { name: "version", shape: Shape::Record(Record::NetworkVersion), container: Container::Single, required: true },
                Field { name: "generator_version", shape: Shape::Record(Record::NetworkVersion), container: Container::Single, required: true },
                Field { name: "tags", shape: Shape::Text, container: Container::ListOf, required: true },
                Field { name: "password", shape: Shape::Flag, container: Container::Single, required: true },
                Field { name: "permissions", shape: Shape::Record(Record::PermissionsMap), container: Container::Single, required: true },
                Field { name: "hint_cost", shape: Shape::Integer, container: Container::Single, required: true },
                Field { name: "location_check_points", shape: Shape::Integer, container: Container::Single, required: true },
                Field { name: "games", shape: Shape::Text, container: Container::ListOf, required: false },
                Field { name: "datapackage_checksums", shape: Shape::Text, container: Container::MapOf, required: true },
                Field { name: "seed_name", shape: Shape::Text, container: Container::Single, required: true },
                Field { name: "time", shape: Shape::Number, container: Container::Single, required: true },
            ],
            Record::ConnectionRefused => vec![
                Field { name: "errors", shape: Shape::Text, container: Container::ListOf, required: true },
            ],
            Record::Connected => vec![
                Field { name: "team", shape: Shape::Integer, container: Container::Single, required: true },
                Field { name: "slot", shape: Shape::Integer, container: Container::Single, required: true },
                Field { name: "players", shape: Shape::Record(Record::NetworkPlayer), container: Container::ListOf, required: true },
                Field { name: "missing_locations", shape: Shape::Integer, container: Container::ListOf, required: true },
                Field { name: "checked_locations", shape: Shape::Integer, container: Container::ListOf, required: true },
                Field { name: "slot_data", shape: Shape::Any, container: Container::Single, required: true },
                Field { name: "slot_info", shape: Shape::Record(Record::NetworkSlot), container: Container::MapOf, required: true },
            ],
            Record::ReceivedItems => vec![
                Field { name: "index", shape: Shape::Integer, container: Container::Single, required: true },
                Field { name: "items", shape: Shape::Record(Record::NetworkItem), container: Container::ListOf, required: true },
            ],
            Record::LocationInfo => vec![
                Field { name: "locations", shape: Shape::Record(Record::NetworkItem), container: Container::ListOf, required: true },
            ],
            Record::RoomUpdate => vec![
                Field { name: "version", shape: Shape::Record(Record::NetworkVersion), container: Container::Single, required: false },
                Field { name: "tags", shape: Shape::Text, container: Container::ListOf, required: false },
                Field { name: "password", shape: Shape::Flag, container: Container::Single, required: false },
                Field { name: "permissions", shape: Shape::Code(CodeTable::Permission), container: Container::MapOf, required: false },
                Field { name: "hint_cost", shape: Shape::Integer, container: Container::Single, required: false },
                Field { name: "location_check_points", shape: Shape::Integer, container: Container::Single, required: false },
                Field { name: "games", shape: Shape::Text, container: Container::ListOf, required: false },
                Field { name: "datapackage_versions", shape: Shape::Integer, container: Container::MapOf, required: false },
                Field { name: "seed_name", shape: Shape::Text, container: Container::Single, required: false },
                Field { name: "time", shape: Shape::Number, container: Container::Single, required: false },
                Field { name: "hint_points", shape: Shape::Integer, container: Container::Single, required: false },
                Field { name: "players", shape: Shape::Record(Record::NetworkPlayer), container: Container::ListOf, required: false },
                Field { name: "checked_locations", shape: Shape::Integer, container: Container::ListOf, required: false },
                Field { name: "missing_locations", shape: Shape::Integer, container: Container::ListOf, required: false },
            ],
            Record::Print => vec![
                Field { name: "text", shape: Shape::Text, container: Container::Single, required: true },
            ],
            Record::PrintJSON => vec![
                Field { name: "data", shape: Shape::Record(Record::JSONMessagePart), container: Container::ListOf, required: true },
                Field { name: "type", shape: Shape::Text, container: Container::Single, required: false },
                Field { name: "receiving", shape: Shape::Integer, container: Container::Single, required: false },
                Field { name: "item", shape: Shape::Record(Record::NetworkItem), container: Container::Single, required: false },
                Field { name: "found", shape: Shape::Flag, container: Container::Single, required: false },
                Field { name: "countdown", shape: Shape::Integer, container: Container::Single, required: false },
            ],
            Record::Hint => vec![
                Field { name: "receiving_player", shape: Shape::Integer, container: Container::Single, required: true },
                Field { name: "finding_player", shape: Shape::Integer, container: Container::Single, required: true },
                Field { name: "location", shape: Shape::Integer, container: Container::Single, required: true },
                Field { name: "item", shape: Shape::Integer, container: Container::Single, required: true },
                Field { name: "found", shape: Shape::Flag, container: Container::Single, required: true },
                Field { name: "entrance", shape: Shape::Text, container: Container::Single, required: true },
                Field { name: "item_flags", shape: Shape::Integer, container: Container::Single, required: true },
            ],
            Record::JSONMessagePart => vec![
                Field { name: "type", shape: Shape::Text, container: Container::Single, required: false },
                Field { name: "text", shape: Shape::Text, container: Container::Single, required: false },
                Field { name: "color", shape: Shape::Text, container: Container::Single, required: false },
                Field { name: "flags", shape: Shape::Integer, container: Container::Single, required: false },
                Field { name: "player", shape: Shape::Integer, container: Container::Single, required: false },
            ],
            Record::DataPackage => vec![
                Field { name: "data", shape: Shape::Record(Record::DataPackageObject), container: Container::Single, required: true },
            ],
            Record::DataPackageObject => vec![
                Field { name: "games", shape: Shape::Record(Record::GameData), container: Container::MapOf, required: true },
            ],
            Record::GameData => vec![
                Field { name: "item_name_to_id", shape: Shape::Integer, container: Container::MapOf, required: true },
                Field { name: "location_name_to_id", shape: Shape::Integer, container: Container::MapOf, required: true },
            ],
            Record::Bounced => vec![
                Field { name: "games", shape: Shape::Text, container: Container::ListOf, required: false },
                Field { name: "slots", shape: Shape::Integer, container: Container::ListOf, required: false },
                Field { name: "tags", shape: Shape::Text, container: Container::ListOf, required: false },
                Field { name: "data", shape: Shape::Record(Record::Bounce), container: Container::Single, required: true },
            ],
            Record::InvalidPacket => vec![
                Field { name: "type", shape: Shape::Text, container: Container::Single, required: true },
                Field { name: "original_cmd", shape: Shape::Text, container: Container::Single, required: false },
                Field { name: "text", shape: Shape::Text, container: Container::Single, required: true },
            ],
            Record::Retrieved => vec![
                Field { name: "keys", shape: Shape::Any, container: Container::MapOf, required: true },
            ],
            Record::SetReply => vec![
                Field { name: "key", shape: Shape::Text, container: Container::Single, required: true },
                Field { name: "value", shape: Shape::Any, container: Container::Single, required: true },
                Field { name: "original_value", shape: Shape::Any, container: Container::Single, required: true },
            ],
        };
        assert(r@ =~= self.fields_spec());
        r
    }
}

impl ClientCommand {
    /// The record that holds the fields of a message of this kind.
    pub open spec fn payload_spec(self) -> Record {
        match self {
            ClientCommand::Connect => Record::Connect,
            ClientCommand::Sync => Record::Sync,
            ClientCommand::LocationChecks => Record::LocationChecks,
            ClientCommand::LocationScouts => Record::LocationScouts,
            ClientCommand::StatusUpdate => Record::StatusUpdate,
            ClientCommand::Say => Record::Say,
            ClientCommand::GetDataPackage => Record::GetDataPackage,
            ClientCommand::Bounce => Record::Bounce,
            ClientCommand::Get => Record::Get,
            ClientCommand::SetRequest => Record::SetRequest,
            ClientCommand::SetNotify => Record::SetNotify,
        }
    }

    pub fn payload(&self) -> (r: Record)
        ensures
            r == self.payload_spec(),
    {
        match self {
            ClientCommand::Connect => Record::Connect,
            ClientCommand::Sync => Record::Sync,
            ClientCommand::LocationChecks => Record::LocationChecks,
            ClientCommand::LocationScouts => Record::LocationScouts,
            ClientCommand::StatusUpdate => Record::StatusUpdate,
            ClientCommand::Say => Record::Say,
            ClientCommand::GetDataPackage => Record::GetDataPackage,
            ClientCommand::Bounce => Record::Bounce,
            ClientCommand::Get => Record::Get,
            ClientCommand::SetRequest => Record::SetRequest,
            ClientCommand::SetNotify => Record::SetNotify,
        }
    }
}

impl ServerCommand {
    /// The record that holds the fields of a message of this kind.
    pub open spec fn payload_spec(self) -> Record {
        match self {
            ServerCommand::RoomInfo => Record::RoomInfo,
            ServerCommand::ConnectionRefused => Record::ConnectionRefused,
            ServerCommand::Connected => Record::Connected,
            ServerCommand::ReceivedItems => Record::ReceivedItems,
            ServerCommand::LocationInfo => Record::LocationInfo,
            ServerCommand::RoomUpdate => Record::RoomUpdate,
            ServerCommand::Print => Record::Print,
            ServerCommand::PrintJSON => Record::PrintJSON,
            ServerCommand::DataPackage => Record::DataPackage,
            ServerCommand::Bounced => Record::Bounced,
            ServerCommand::InvalidPacket => Record::InvalidPacket,
            ServerCommand::Retrieved => Record::Retrieved,
            ServerCommand::SetReply => Record::SetReply,
        }
    }

    pub fn payload(&self) -> (r: Record)
        ensures
            r == self.payload_spec(),
    {
        match self {
            ServerCommand::RoomInfo => Record::RoomInfo,
            ServerCommand::ConnectionRefused => Record::ConnectionRefused,
            ServerCommand::Connected => Record::Connected,
            ServerCommand::ReceivedItems => Record::ReceivedItems,
            ServerCommand::LocationInfo => Record::LocationInfo,
            ServerCommand::RoomUpdate => Record::RoomUpdate,
            ServerCommand::Print => Record::Print,
            ServerCommand::PrintJSON => Record::PrintJSON,
            ServerCommand::DataPackage => Record::DataPackage,
            ServerCommand::Bounced => Record::Bounced,
            ServerCommand::InvalidPacket => Record::InvalidPacket,
            ServerCommand::Retrieved => Record::Retrieved,
            ServerCommand::SetReply => Record::SetReply,
        }
    }
}

} // verus!
