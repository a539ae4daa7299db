//! Messages that a server sends.

use vstd::prelude::*;
use std::collections::HashMap;
use serde_json::Value;
use crate::client::Bounce;
use crate::values::{
    NetworkItem, NetworkPlayer, NetworkSlot, NetworkVersion, Permission, PermissionsMap,
    Timestamp,
};

verus! {

#[derive(Clone, Debug)]
pub struct RoomInfo {
    pub version: NetworkVersion,
    pub generator_version: NetworkVersion,
    pub tags: Vec<String>,
    pub password: bool,
    pub permissions: PermissionsMap,
    pub hint_cost: i32,
    pub location_check_points: i32,
    pub games: Option<Vec<String>>,
    /// Per game, the checksum of its data package: a consumer compares it
    /// with that of its cached tables.
    pub datapackage_checksums: HashMap<String, String>,
    pub seed_name: String,
    pub time: Timestamp,
}

#[derive(Debug)]
pub struct ConnectionRefused {
    pub errors: Vec<String>,
}

#[derive(Debug)]
pub struct Connected {
    pub team: i32,
    pub slot: i32,
    pub players: Vec<NetworkPlayer>,
    pub missing_locations: Vec<i32>,
    pub checked_locations: Vec<i32>,
    pub slot_data: Value,
    /// Keyed by the slot's number, written as a string.
    pub slot_info: HashMap<String, NetworkSlot>,
}

#[derive(Debug)]
pub struct ReceivedItems {
    pub index: i32,
    pub items: Vec<NetworkItem>,
}

#[derive(Debug)]
pub struct LocationInfo {
    pub locations: Vec<NetworkItem>,
}

/// A sparse change of the room's state. An absent field was not provided,
/// which differs from an empty list, `false` or zero.
#[derive(Debug)]
pub struct RoomUpdate {
    pub version: Option<NetworkVersion>,
    pub tags: Option<Vec<String>>,
    pub password: Option<bool>,
    pub permissions: Option<HashMap<String, Permission>>,
    pub hint_cost: Option<i32>,
    pub location_check_points: Option<i32>,
    pub games: Option<Vec<String>>,
    pub datapackage_versions: Option<HashMap<String, i32>>,
    pub seed_name: Option<String>,
    pub time: Option<Timestamp>,
    pub hint_points: Option<i32>,
    pub players: Option<Vec<NetworkPlayer>>,
    pub checked_locations: Option<Vec<i32>>,
    pub missing_locations: Option<Vec<i32>>,
}

#[derive(Debug)]
pub struct Print {
    pub text: String,
}

#[derive(Debug)]
pub struct PrintJSON {
    pub data: Vec<JSONMessagePart>,
    /// Named `type` on the wire.
    pub kind: Option<String>,
    pub receiving: Option<i32>,
    pub item: Option<NetworkItem>,
    pub found: Option<bool>,
    pub countdown: Option<i32>,
}

/// One fragment of a structured chat line.
#[derive(Debug)]
pub struct JSONMessagePart {
    /// Named `type` on the wire.
    pub kind: Option<String>,
    pub text: Option<String>,
    pub color: Option<String>,
    pub flags: Option<i32>,
    pub player: Option<i32>,
}

#[derive(Debug)]
pub struct DataPackage {
    pub data: DataPackageObject,
}

#[derive(Debug)]
pub struct DataPackageObject {
    pub games: HashMap<String, GameData>,
}

/// The ids of one game's items and locations, by name.
#[derive(Debug)]
pub struct GameData {
    pub item_name_to_id: HashMap<String, i32>,
    pub location_name_to_id: HashMap<String, i32>,
}

/// A relayed `Bounce`. The slots are numbers here.
#[derive(Debug)]
pub struct Bounced {
    pub games: Option<Vec<String>>,
    pub slots: Option<Vec<i32>>,
    pub tags: Option<Vec<String>>,
    pub data: Bounce,
}

#[derive(Debug)]
pub struct InvalidPacket {
    /// Named `type` on the wire.
    pub kind: String,
    pub original_cmd: Option<String>,
    pub text: String,
}

#[derive(Debug)]
pub struct Retrieved {
    pub keys: HashMap<String, Value>,
}

#[derive(Debug)]
pub struct SetReply {
    pub key: String,
    pub value: Value,
    pub original_value: Value,
}

#[derive(Debug)]
pub enum ServerMessage {
    RoomInfo(RoomInfo),
    ConnectionRefused(ConnectionRefused),
    Connected(Connected),
    ReceivedItems(ReceivedItems),
    LocationInfo(LocationInfo),
    RoomUpdate(RoomUpdate),
    Print(Print),
    PrintJSON(PrintJSON),
    DataPackage(DataPackage),
    Bounced(Bounced),
    InvalidPacket(InvalidPacket),
    Retrieved(Retrieved),
    SetReply(SetReply),
}

} // verus!
