//! Value types that several messages share, and the numeric wire codes of
//! the enumerations.

use vstd::prelude::*;
use crate::error::{MalformedReason, ProtocolError};

verus! {

/// What a player may do to shared location state. The codes are bit-flag-like
/// (6 is automatic, 7 is automatic and enabled) and travel unchanged.
#[derive(Clone, Copy, Debug, PartialEq, Eq, Hash, Structural)]
pub enum Permission {
    Disabled,
    Enabled,
    Goal,
    Auto,
    AutoEnabled,
}

impl Permission {
    /// The code that stands for this value on the wire.
    pub open spec fn code_spec(self) -> u16 {
        match self {
            Permission::Disabled => 0,
            Permission::Enabled => 1,
            Permission::Goal => 2,
            Permission::Auto => 6,
            Permission::AutoEnabled => 7,
        }
    }

    /// The value that a code stands for, if any.
    pub open spec fn of_code(code: u16) -> Option<Permission> {
        if code == 0 {
            Some(Permission::Disabled)
        } else if code == 1 {
            Some(Permission::Enabled)
        } else if code == 2 {
            Some(Permission::Goal)
        } else if code == 6 {
            Some(Permission::Auto)
        } else if code == 7 {
            Some(Permission::AutoEnabled)
        } else {
            None
        }
    }

    pub fn code(&self) -> (r: u16)
        ensures
            r == self.code_spec(),
    {
        match self {
            Permission::Disabled => 0,
            Permission::Enabled => 1,
            Permission::Goal => 2,
            Permission::Auto => 6,
            Permission::AutoEnabled => 7,
        }
    }

    /// Decodes a wire code; a code outside {0, 1, 2, 6, 7} is rejected.
    pub fn from_code(code: u16) -> (r: Result<Permission, ProtocolError>)
        ensures
            r == code_result(Permission::of_code(code)),
    {
        match code {
            0 => Ok(Permission::Disabled),
            1 => Ok(Permission::Enabled),
            2 => Ok(Permission::Goal),
            6 => Ok(Permission::Auto),
            7 => Ok(Permission::AutoEnabled),
            _ => Err(ProtocolError::MalformedMessage(MalformedReason::CodeOutOfRange)),
        }
    }
}

/// What decoding a code returns: the value it stands for, or the failure
/// that reports a code outside the enumeration.
pub open spec fn code_result<T>(decoded: Option<T>) -> Result<T, ProtocolError> {
    match decoded {
        Some(v) => Ok(v),
        None => Err(ProtocolError::MalformedMessage(MalformedReason::CodeOutOfRange)),
    }
}

/// Every permission survives the trip through its code, and the codes that
/// decode are exactly 0, 1, 2, 6 and 7, each to the value that encodes to it.
pub proof fn lemma_permission_codes(p: Permission, code: u16)
    ensures
        Permission::of_code(p.code_spec()) == Some(p),
        Permission::of_code(code).is_some() <==> (code == 0 || code == 1 || code == 2 || code == 6
            || code == 7),
        Permission::of_code(code) == Some(p) <==> p.code_spec() == code,
{
}

/// What kind of participant holds a slot.
#[derive(Clone, Copy, Debug, PartialEq, Eq, Hash, Structural)]
pub enum SlotType {
    Spectator,
    Player,
    Group,
}

impl SlotType {
    /// The code that stands for this value on the wire.
    pub open spec fn code_spec(self) -> u16 {
        match self {
            SlotType::Spectator => 0,
            SlotType::Player => 1,
            SlotType::Group => 2,
        }
    }

    /// The value that a code stands for, if any.
    pub open spec fn of_code(code: u16) -> Option<SlotType> {
        if code == 0 {
            Some(SlotType::Spectator)
        } else if code == 1 {
            Some(SlotType::Player)
        } else if code == 2 {
            Some(SlotType::Group)
        } else {
            None
        }
    }

    pub fn code(&self) -> (r: u16)
        ensures
            r == self.code_spec(),
    {
        match self {
            SlotType::Spectator => 0,
            SlotType::Player => 1,
            SlotType::Group => 2,
        }
    }

    /// Decodes a wire code; a code outside {0, 1, 2} is rejected.
    pub fn from_code(code: u16) -> (r: Result<SlotType, ProtocolError>)
        ensures
            r == code_result(SlotType::of_code(code)),
    {
        match code {
            0 => Ok(SlotType::Spectator),
            1 => Ok(SlotType::Player),
            2 => Ok(SlotType::Group),
            _ => Err(ProtocolError::MalformedMessage(MalformedReason::CodeOutOfRange)),
        }
    }
}

/// Every slot type survives the trip through its code, and the codes that
/// decode are exactly 0, 1 and 2, each to the value that encodes to it.
pub proof fn lemma_slot_type_codes(t: SlotType, code: u16)
    ensures
        SlotType::of_code(t.code_spec()) == Some(t),
        SlotType::of_code(code).is_some() <==> code <= 2,
        SlotType::of_code(code) == Some(t) <==> t.code_spec() == code,
{
}

/// How far a client has come in its game.
#[derive(Clone, Copy, Debug, PartialEq, Eq, Hash, Structural)]
pub enum ClientStatus {
    ClientUnknown,
    ClientConnected,
    ClientReady,
    ClientPlaying,
    ClientGoal,
}

impl ClientStatus {
    /// The code that stands for this value on the wire.
    pub open spec fn code_spec(self) -> u16 {
        match self {
            ClientStatus::ClientUnknown => 0,
            ClientStatus::ClientConnected => 5,
            ClientStatus::ClientReady => 10,
            ClientStatus::ClientPlaying => 20,
            ClientStatus::ClientGoal => 30,
        }
    }

    /// The value that a code stands for, if any.
    pub open spec fn of_code(code: u16) -> Option<ClientStatus> {
        if code == 0 {
            Some(ClientStatus::ClientUnknown)
        } else if code == 5 {
            Some(ClientStatus::ClientConnected)
        } else if code == 10 {
            Some(ClientStatus::ClientReady)
        } else if code == 20 {
            Some(ClientStatus::ClientPlaying)
        } else if code == 30 {
            Some(ClientStatus::ClientGoal)
        } else {
            None
        }
    }

    pub fn code(&self) -> (r: u16)
        ensures
            r == self.code_spec(),
    {
        match self {
            ClientStatus::ClientUnknown => 0,
            ClientStatus::ClientConnected => 5,
            ClientStatus::ClientReady => 10,
            ClientStatus::ClientPlaying => 20,
            ClientStatus::ClientGoal => 30,
        }
    }

    /// Decodes a wire code. A code outside {0, 5, 10, 20, 30} comes from the
    /// peer, so it is reported and never ends the process.
    pub fn from_code(code: u16) -> (r: Result<ClientStatus, ProtocolError>)
        ensures
            r == code_result(ClientStatus::of_code(code)),
    {
        match code {
            0 => Ok(ClientStatus::ClientUnknown),
            5 => Ok(ClientStatus::ClientConnected),
            10 => Ok(ClientStatus::ClientReady),
            20 => Ok(ClientStatus::ClientPlaying),
            30 => Ok(ClientStatus::ClientGoal),
            _ => Err(ProtocolError::MalformedMessage(MalformedReason::CodeOutOfRange)),
        }
    }
}

impl TryFrom<u16> for ClientStatus {
    type Error = ProtocolError;

    /// The status that a code stands for; a code outside the set is
    /// reported, as `from_code` does.
    fn try_from(value: u16) -> (r: Result<ClientStatus, ProtocolError>) {
        ClientStatus::from_code(value)
    }
}

impl vstd::std_specs::convert::TryFromSpecImpl<u16> for ClientStatus {
    open spec fn obeys_try_from_spec() -> bool {
        true
    }

    open spec fn try_from_spec(value: u16) -> Result<ClientStatus, ProtocolError> {
        code_result(ClientStatus::of_code(value))
    }
}

/// Every status survives the trip through its code, and the codes that
/// decode are exactly 0, 5, 10, 20 and 30, each to the value that encodes to it.
pub proof fn lemma_client_status_codes(s: ClientStatus, code: u16)
    ensures
        ClientStatus::of_code(s.code_spec()) == Some(s),
        ClientStatus::of_code(code).is_some() <==> (code == 0 || code == 5 || code == 10 || code
            == 20 || code == 30),
        ClientStatus::of_code(code) == Some(s) <==> s.code_spec() == code,
{
}

/// A protocol or client release. `class` is a type tag for peers that
/// dispatch on one inside compound values; it carries no information.
#[derive(Clone, Debug)]
pub struct NetworkVersion {
    pub major: i32,
    pub minor: i32,
    pub build: i32,
    pub class: String,
}

impl NetworkVersion {
    /// The tag is the one that peers expect.
    pub open spec fn has_class_tag(&self) -> bool {
        self.class@ == "Version"@
    }
}

/// The protocol release that this schema describes: 0.5.0.
pub fn network_version() -> (v: NetworkVersion)
    ensures
        v.major == 0,
        v.minor == 5,
        v.build == 0,
        v.has_class_tag(),
{
    NetworkVersion { major: 0, minor: 5, build: 0, class: "Version".to_owned() }
}

/// One participant. `slot` is the stable identity; `alias` may change.
#[derive(Debug)]
pub struct NetworkPlayer {
    pub team: i32,
    pub slot: i32,
    pub alias: String,
    pub name: String,
}

/// The fact that an item at a location belongs in a player's world.
/// `flags` is a bitmask that only `is_important` interprets.
#[derive(Clone, Copy, Debug, PartialEq, Eq, Hash, Structural)]
pub struct NetworkItem {
    pub item: i32,
    pub location: i32,
    pub player: i32,
    pub flags: i32,
}

/// Two item references are the same value exactly when all four fields agree.
pub proof fn lemma_network_item_identity(a: NetworkItem, b: NetworkItem)
    ensures
        (a == b) <==> (a.item == b.item && a.location == b.location && a.player == b.player
            && a.flags == b.flags),
{
}

/// One slot of the room; a group slot lists the slots that it aggregates.
#[derive(Debug)]
pub struct NetworkSlot {
    pub name: String,
    pub game: String,
    /// Named `type` on the wire.
    pub kind: SlotType,
    pub group_members: Vec<i32>,
}

/// The three permissions that a room grants.
#[derive(Clone, Copy, Debug, PartialEq, Eq, Hash, Structural)]
pub struct PermissionsMap {
    pub release: Permission,
    pub collect: Permission,
    pub remaining: Permission,
}

/// A point in time as the room sent it: the bit pattern of the
/// single-precision number of seconds since the Unix epoch.
#[derive(Clone, Copy, Debug, PartialEq, Eq, Hash, Structural)]
pub struct Timestamp {
    pub bits: u32,
}

} // verus!
