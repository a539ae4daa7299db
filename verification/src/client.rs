//! Messages that a client sends.

use vstd::prelude::*;
use serde_json::Value;
use crate::values::{ClientStatus, NetworkVersion};

verus! {

#[derive(Debug)]
pub struct Connect {
    pub password: Option<String>,
    pub name: String,
    pub version: NetworkVersion,
    pub items_handling: Option<i32>,
    pub tags: Vec<String>,
    pub uuid: String,
    pub game: String,
    pub slot_data: bool,
}

#[derive(Debug)]
pub struct ConnectUpdate {
    pub items_handling: i32,
    pub tags: Vec<String>,
}

#[derive(Debug)]
pub struct LocationChecks {
    pub locations: Vec<i32>,
}

#[derive(Debug)]
pub struct LocationScouts {
    pub locations: Vec<i32>,
    pub create_as_hint: i32,
}

#[derive(Debug)]
pub struct StatusUpdate {
    pub status: ClientStatus,
}

#[derive(Debug)]
pub struct Say {
    pub text: String,
}

/// `games` absent asks for every game; it is then left out of the wire form.
#[derive(Debug)]
pub struct GetDataPackage {
    pub games: Option<Vec<String>>,
}

/// A payload relayed to the clients that match the filters.
#[derive(Debug)]
pub struct Bounce {
    pub games: Option<Vec<String>>,
    pub slots: Option<Vec<String>>,
    pub tags: Option<Vec<String>>,
    pub data: Value,
}

#[derive(Debug)]
pub struct Get {
    pub keys: Vec<String>,
}

/// The `Set` command: a chain of operations on one stored key.
#[derive(Debug)]
pub struct SetRequest {
    pub key: String,
    pub default: Value,
    pub want_reply: bool,
    pub operations: Vec<DataStorageOperation>,
}

/// One step of a `Set`: `replace` names the operation, `value` is its operand.
#[derive(Debug)]
pub struct DataStorageOperation {
    pub replace: String,
    pub value: Value,
}

#[derive(Debug)]
pub struct SetNotify {
    pub keys: Vec<String>,
}

#[derive(Debug)]
pub enum ClientMessage {
    Connect(Connect),
    Sync,
    LocationChecks(LocationChecks),
    LocationScouts(LocationScouts),
    StatusUpdate(StatusUpdate),
    Say(Say),
    GetDataPackage(GetDataPackage),
    Bounce(Bounce),
    Get(Get),
    SetRequest(SetRequest),
    SetNotify(SetNotify),
}

} // verus!
