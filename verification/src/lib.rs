//! Message schema of a multiworld coordination protocol: the closed sets of
//! client and server messages, the value types they share, the numeric wire
//! codes of the enumerations, the `cmd` discriminator table, the declared
//! shape of every field with the test of a JSON object against it, and the
//! conversions of both hint shapes into one canonical record.
//!
//! The schema is transport-agnostic and does no I/O. It reads JSON trees of
//! `serde_json` and leaves the filling of typed messages to the caller.

pub mod client;
pub mod command;
pub mod error;
pub mod frame;
pub mod hint;
pub mod schema;
pub mod server;
pub mod values;
pub mod wire;

pub use client::{
    Bounce, ClientMessage, Connect, ConnectUpdate, DataStorageOperation, Get, GetDataPackage,
    LocationChecks, LocationScouts, Say, SetNotify, SetRequest, StatusUpdate,
};
pub use command::{ClientCommand, ServerCommand};
pub use error::{MalformedReason, ProtocolError, RequiredField};
pub use frame::{client_frame_of, server_frame_of};
pub use hint::{is_important, Hint, HintData};
pub use schema::{CodeTable, Container, Field, Record, Shape};
pub use server::{
    Bounced, Connected, ConnectionRefused, DataPackage, DataPackageObject, GameData,
    InvalidPacket, JSONMessagePart, LocationInfo, Print, PrintJSON, ReceivedItems, Retrieved,
    RoomInfo, RoomUpdate, ServerMessage, SetReply,
};
pub use values::{
    network_version, ClientStatus, NetworkItem, NetworkPlayer, NetworkSlot, NetworkVersion,
    Permission, PermissionsMap, SlotType, Timestamp,
};
