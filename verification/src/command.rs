//! The `cmd` discriminator: which string announces which kind of message.
//! The discriminator stands among the payload's fields, not around them.

use vstd::prelude::*;
use crate::client::ClientMessage;
use crate::error::{MalformedReason, ProtocolError};
use crate::server::ServerMessage;

verus! {

/// `==` of `str`: true exactly when both hold the same characters.
#[verifier::external_body]
fn same_text(a: &str, b: &str) -> (r: bool)
    ensures
        r == (a@ == b@),
{
    a == b
}

/// The kinds of message that a client sends, one for each `cmd` value.
#[derive(Clone, Copy, Debug, PartialEq, Eq, Hash, Structural)]
pub enum ClientCommand {
    Connect,
    Sync,
    LocationChecks,
    LocationScouts,
    StatusUpdate,
    Say,
    GetDataPackage,
    Bounce,
    Get,
    SetRequest,
    SetNotify,
}

impl ClientCommand {
    /// The `cmd` value that announces this kind on the wire.
    pub open spec fn name_spec(self) -> Seq<char> {
        match self {
            ClientCommand::Connect => "Connect"@,
            ClientCommand::Sync => "Sync"@,
            ClientCommand::LocationChecks => "LocationChecks"@,
            ClientCommand::LocationScouts => "LocationScouts"@,
            ClientCommand::StatusUpdate => "StatusUpdate"@,
            ClientCommand::Say => "Say"@,
            ClientCommand::GetDataPackage => "GetDataPackage"@,
            ClientCommand::Bounce => "Bounce"@,
            ClientCommand::Get => "Get"@,
            ClientCommand::SetRequest => "Set"@,
            ClientCommand::SetNotify => "SetNotify"@,
        }
    }

    /// The kind that a `cmd` value announces, if it announces one.
    pub open spec fn named(cmd: Seq<char>) -> Option<ClientCommand> {
        if cmd == "Connect"@ {
            Some(ClientCommand::Connect)
        } else if cmd == "Sync"@ {
            Some(ClientCommand::Sync)
        } else if cmd == "LocationChecks"@ {
            Some(ClientCommand::LocationChecks)
        } else if cmd == "LocationScouts"@ {
            Some(ClientCommand::LocationScouts)
        } else if cmd == "StatusUpdate"@ {
            Some(ClientCommand::StatusUpdate)
        } else if cmd == "Say"@ {
            Some(ClientCommand::Say)
        } else if cmd == "GetDataPackage"@ {
            Some(ClientCommand::GetDataPackage)
        } else if cmd == "Bounce"@ {
            Some(ClientCommand::Bounce)
        } else if cmd == "Get"@ {
            Some(ClientCommand::Get)
        } else if cmd == "Set"@ {
            Some(ClientCommand::SetRequest)
        } else if cmd == "SetNotify"@ {
            Some(ClientCommand::SetNotify)
        } else {
            None
        }
    }

    pub fn name(&self) -> (r: &'static str)
        ensures
            r@ == self.name_spec(),
    {
        match self {
            ClientCommand::Connect => "Connect",
            ClientCommand::Sync => "Sync",
            ClientCommand::LocationChecks => "LocationChecks",
            ClientCommand::LocationScouts => "LocationScouts",
            ClientCommand::StatusUpdate => "StatusUpdate",
            ClientCommand::Say => "Say",
            ClientCommand::GetDataPackage => "GetDataPackage",
            ClientCommand::Bounce => "Bounce",
            ClientCommand::Get => "Get",
            ClientCommand::SetRequest => "Set",
            ClientCommand::SetNotify => "SetNotify",
        }
    }

    /// Reads a discriminator. A string that is not one of the `cmd`
    /// values of this direction is rejected, whatever it holds.
    pub fn parse(cmd: &str) -> (r: Result<ClientCommand, ProtocolError>)
        ensures
            r == match ClientCommand::named(cmd@) {
                Some(k) => Ok::<ClientCommand, ProtocolError>(k),
                None => Err(ProtocolError::MalformedMessage(MalformedReason::UnknownCommand)),
            },
    {
        if same_text(cmd, "Connect") {
            Ok(ClientCommand::Connect)
        } else if same_text(cmd, "Sync") {
            Ok(ClientCommand::Sync)
        } else if same_text(cmd, "LocationChecks") {
            Ok(ClientCommand::LocationChecks)
        } else if same_text(cmd, "LocationScouts") {
            Ok(ClientCommand::LocationScouts)
        } else if same_text(cmd, "StatusUpdate") {
            Ok(ClientCommand::StatusUpdate)
        } else if same_text(cmd, "Say") {
            Ok(ClientCommand::Say)
        } else if same_text(cmd, "GetDataPackage") {
            Ok(ClientCommand::GetDataPackage)
        } else if same_text(cmd, "Bounce") {
            Ok(ClientCommand::Bounce)
        } else if same_text(cmd, "Get") {
            Ok(ClientCommand::Get)
        } else if same_text(cmd, "Set") {
            Ok(ClientCommand::SetRequest)
        } else if same_text(cmd, "SetNotify") {
            Ok(ClientCommand::SetNotify)
        } else {
            Err(ProtocolError::MalformedMessage(MalformedReason::UnknownCommand))
        }
    }
}

impl ClientMessage {
    /// The kind of this message: its variant without the payload.
    pub open spec fn command_spec(&self) -> ClientCommand {
        match self {
            ClientMessage::Connect(_) => ClientCommand::Connect,
            ClientMessage::Sync => ClientCommand::Sync,
            ClientMessage::LocationChecks(_) => ClientCommand::LocationChecks,
            ClientMessage::LocationScouts(_) => ClientCommand::LocationScouts,
            ClientMessage::StatusUpdate(_) => ClientCommand::StatusUpdate,
            ClientMessage::Say(_) => ClientCommand::Say,
            ClientMessage::GetDataPackage(_) => ClientCommand::GetDataPackage,
            ClientMessage::Bounce(_) => ClientCommand::Bounce,
            ClientMessage::Get(_) => ClientCommand::Get,
            ClientMessage::SetRequest(_) => ClientCommand::SetRequest,
            ClientMessage::SetNotify(_) => ClientCommand::SetNotify,
        }
    }

    pub fn command(&self) -> (r: ClientCommand)
        ensures
            r == self.command_spec(),
    {
        match self {
            ClientMessage::Connect(_) => ClientCommand::Connect,
            ClientMessage::Sync => ClientCommand::Sync,
            ClientMessage::LocationChecks(_) => ClientCommand::LocationChecks,
            ClientMessage::LocationScouts(_) => ClientCommand::LocationScouts,
            ClientMessage::StatusUpdate(_) => ClientCommand::StatusUpdate,
            ClientMessage::Say(_) => ClientCommand::Say,
            ClientMessage::GetDataPackage(_) => ClientCommand::GetDataPackage,
            ClientMessage::Bounce(_) => ClientCommand::Bounce,
            ClientMessage::Get(_) => ClientCommand::Get,
            ClientMessage::SetRequest(_) => ClientCommand::SetRequest,
            ClientMessage::SetNotify(_) => ClientCommand::SetNotify,
        }
    }

    /// The `cmd` value that stands beside this message's fields on the wire.
    pub fn cmd(&self) -> (r: &'static str)
        ensures
            r@ == self.command_spec().name_spec(),
            ClientCommand::named(r@) == Some(self.command_spec()),
    {
        let kind = self.command();
        proof {
            lemma_client_command_names(kind, kind.name_spec());
        }
        kind.name()
    }
}

/// The `cmd` values of a client are pairwise distinct: each kind is read
/// back from its own name, and a string announces a kind only if it is that
/// kind's name.
pub proof fn lemma_client_command_names(k: ClientCommand, cmd: Seq<char>)
    ensures
        ClientCommand::named(k.name_spec()) == Some(k),
        ClientCommand::named(cmd) == Some(k) <==> cmd == k.name_spec(),
{
    reveal_strlit("Connect");
    assert("Connect"@.len() == 7);
    reveal_strlit("Sync");
    assert("Sync"@.len() == 4);
    reveal_strlit("LocationChecks");
    assert("LocationChecks"@.len() == 14);
    reveal_strlit("LocationScouts");
    assert("LocationScouts"@.len() == 14);
    reveal_strlit("StatusUpdate");
    assert("StatusUpdate"@.len() == 12);
    reveal_strlit("Say");
    assert("Say"@.len() == 3);
    reveal_strlit("GetDataPackage");
    assert("GetDataPackage"@.len() == 14);
    reveal_strlit("Bounce");
    assert("Bounce"@.len() == 6);
    reveal_strlit("Get");
    assert("Get"@.len() == 3);
    reveal_strlit("Set");
    assert("Set"@.len() == 3);
    reveal_strlit("SetNotify");
    assert("SetNotify"@.len() == 9);
    assert("LocationChecks"@[8] != "LocationScouts"@[8]);
    assert("LocationChecks"@[0] != "GetDataPackage"@[0]);
    assert("LocationScouts"@[0] != "GetDataPackage"@[0]);
    assert("Say"@[0] != "Get"@[0]);
    assert("Say"@[1] != "Set"@[1]);
    assert("Get"@[0] != "Set"@[0]);
}

/// The kinds of message that a server sends, one for each `cmd` value.
#[derive(Clone, Copy, Debug, PartialEq, Eq, Hash, Structural)]
pub enum ServerCommand {
    RoomInfo,
    ConnectionRefused,
    Connected,
    ReceivedItems,
    LocationInfo,
    RoomUpdate,
    Print,
    PrintJSON,
    DataPackage,
    Bounced,
    InvalidPacket,
    Retrieved,
    SetReply,
}

impl ServerCommand {
    /// The `cmd` value that announces this kind on the wire.
    pub open spec fn name_spec(self) -> Seq<char> {
        match self {
            ServerCommand::RoomInfo => "RoomInfo"@,
            ServerCommand::ConnectionRefused => "ConnectionRefused"@,
            ServerCommand::Connected => "Connected"@,
            ServerCommand::ReceivedItems => "ReceivedItems"@,
            ServerCommand::LocationInfo => "LocationInfo"@,
            ServerCommand::RoomUpdate => "RoomUpdate"@,
            ServerCommand::Print => "Print"@,
            ServerCommand::PrintJSON => "PrintJSON"@,
            ServerCommand::DataPackage => "DataPackage"@,
            ServerCommand::Bounced => "Bounced"@,
            ServerCommand::InvalidPacket => "InvalidPacket"@,
            ServerCommand::Retrieved => "Retrieved"@,
            ServerCommand::SetReply => "SetReply"@,
        }
    }

    /// The kind that a `cmd` value announces, if it announces one.
    pub open spec fn named(cmd: Seq<char>) -> Option<ServerCommand> {
        if cmd == "RoomInfo"@ {
            Some(ServerCommand::RoomInfo)
        } else if cmd == "ConnectionRefused"@ {
            Some(ServerCommand::ConnectionRefused)
        } else if cmd == "Connected"@ {
            Some(ServerCommand::Connected)
        } else if cmd == "ReceivedItems"@ {
            Some(ServerCommand::ReceivedItems)
        } else if cmd == "LocationInfo"@ {
            Some(ServerCommand::LocationInfo)
        } else if cmd == "RoomUpdate"@ {
            Some(ServerCommand::RoomUpdate)
        } else if cmd == "Print"@ {
            Some(ServerCommand::Print)
        } else if cmd == "PrintJSON"@ {
            Some(ServerCommand::PrintJSON)
        } else if cmd == "DataPackage"@ {
            Some(ServerCommand::DataPackage)
        } else if cmd == "Bounced"@ {
            Some(ServerCommand::Bounced)
        } else if cmd == "InvalidPacket"@ {
            Some(ServerCommand::InvalidPacket)
        } else if cmd == "Retrieved"@ {
            Some(ServerCommand::Retrieved)
        } else if cmd == "SetReply"@ {
            Some(ServerCommand::SetReply)
        } else {
            None
        }
    }

    pub fn name(&self) -> (r: &'static str)
        ensures
            r@ == self.name_spec(),
    {
        match self {
            ServerCommand::RoomInfo => "RoomInfo",
            ServerCommand::ConnectionRefused => "ConnectionRefused",
            ServerCommand::Connected => "Connected",
            ServerCommand::ReceivedItems => "ReceivedItems",
            ServerCommand::LocationInfo => "LocationInfo",
            ServerCommand::RoomUpdate => "RoomUpdate",
            ServerCommand::Print => "Print",
            ServerCommand::PrintJSON => "PrintJSON",
            ServerCommand::DataPackage => "DataPackage",
            ServerCommand::Bounced => "Bounced",
            ServerCommand::InvalidPacket => "InvalidPacket",
            ServerCommand::Retrieved => "Retrieved",
            ServerCommand::SetReply => "SetReply",
        }
    }

    /// Reads a discriminator. A string that is not one of the `cmd`
    /// values of this direction is rejected, whatever it holds.
    pub fn parse(cmd: &str) -> (r: Result<ServerCommand, ProtocolError>)
        ensures
            r == match ServerCommand::named(cmd@) {
                Some(k) => Ok::<ServerCommand, ProtocolError>(k),
                None => Err(ProtocolError::MalformedMessage(MalformedReason::UnknownCommand)),
            },
    {
        if same_text(cmd, "RoomInfo") {
            Ok(ServerCommand::RoomInfo)
        } else if same_text(cmd, "ConnectionRefused") {
            Ok(ServerCommand::ConnectionRefused)
        } else if same_text(cmd, "Connected") {
            Ok(ServerCommand::Connected)
        } else if same_text(cmd, "ReceivedItems") {
            Ok(ServerCommand::ReceivedItems)
        } else if same_text(cmd, "LocationInfo") {
            Ok(ServerCommand::LocationInfo)
        } else if same_text(cmd, "RoomUpdate") {
            Ok(ServerCommand::RoomUpdate)
        } else if same_text(cmd, "Print") {
            Ok(ServerCommand::Print)
        } else if same_text(cmd, "PrintJSON") {
            Ok(ServerCommand::PrintJSON)
        } else if same_text(cmd, "DataPackage") {
            Ok(ServerCommand::DataPackage)
        } else if same_text(cmd, "Bounced") {
            Ok(ServerCommand::Bounced)
        } else if same_text(cmd, "InvalidPacket") {
            Ok(ServerCommand::InvalidPacket)
        } else if same_text(cmd, "Retrieved") {
            Ok(ServerCommand::Retrieved)
        } else if same_text(cmd, "SetReply") {
            Ok(ServerCommand::SetReply)
        } else {
            Err(ProtocolError::MalformedMessage(MalformedReason::UnknownCommand))
        }
    }
}

impl ServerMessage {
    /// The kind of this message: its variant without the payload.
    pub open spec fn command_spec(&self) -> ServerCommand {
        match self {
            ServerMessage::RoomInfo(_) => ServerCommand::RoomInfo,
            ServerMessage::ConnectionRefused(_) => ServerCommand::ConnectionRefused,
            ServerMessage::Connected(_) => ServerCommand::Connected,
            ServerMessage::ReceivedItems(_) => ServerCommand::ReceivedItems,
            ServerMessage::LocationInfo(_) => ServerCommand::LocationInfo,
            ServerMessage::RoomUpdate(_) => ServerCommand::RoomUpdate,
            ServerMessage::Print(_) => ServerCommand::Print,
            ServerMessage::PrintJSON(_) => ServerCommand::PrintJSON,
            ServerMessage::DataPackage(_) => ServerCommand::DataPackage,
            ServerMessage::Bounced(_) => ServerCommand::Bounced,
            ServerMessage::InvalidPacket(_) => ServerCommand::InvalidPacket,
            ServerMessage::Retrieved(_) => ServerCommand::Retrieved,
            ServerMessage::SetReply(_) => ServerCommand::SetReply,
        }
    }

    pub fn command(&self) -> (r: ServerCommand)
        ensures
            r == self.command_spec(),
    {
        match self {
            ServerMessage::RoomInfo(_) => ServerCommand::RoomInfo,
            ServerMessage::ConnectionRefused(_) => ServerCommand::ConnectionRefused,
            ServerMessage::Connected(_) => ServerCommand::Connected,
            ServerMessage::ReceivedItems(_) => ServerCommand::ReceivedItems,
            ServerMessage::LocationInfo(_) => ServerCommand::LocationInfo,
            ServerMessage::RoomUpdate(_) => ServerCommand::RoomUpdate,
            ServerMessage::Print(_) => ServerCommand::Print,
            ServerMessage::PrintJSON(_) => ServerCommand::PrintJSON,
            ServerMessage::DataPackage(_) => ServerCommand::DataPackage,
            ServerMessage::Bounced(_) => ServerCommand::Bounced,
            ServerMessage::InvalidPacket(_) => ServerCommand::InvalidPacket,
            ServerMessage::Retrieved(_) => ServerCommand::Retrieved,
            ServerMessage::SetReply(_) => ServerCommand::SetReply,
        }
    }

    /// The `cmd` value that stands beside this message's fields on the wire.
    pub fn cmd(&self) -> (r: &'static str)
        ensures
            r@ == self.command_spec().name_spec(),
            ServerCommand::named(r@) == Some(self.command_spec()),
    {
        let kind = self.command();
        proof {
            lemma_server_command_names(kind, kind.name_spec());
        }
        kind.name()
    }
}

/// The `cmd` values of a server are pairwise distinct: each kind is read
/// back from its own name, and a string announces a kind only if it is that
/// kind's name.
pub proof fn lemma_server_command_names(k: ServerCommand, cmd: Seq<char>)
    ensures
        ServerCommand::named(k.name_spec()) == Some(k),
        ServerCommand::named(cmd) == Some(k) <==> cmd == k.name_spec(),
{
    reveal_strlit("RoomInfo");
    assert("RoomInfo"@.len() == 8);
    reveal_strlit("ConnectionRefused");
    assert("ConnectionRefused"@.len() == 17);
    reveal_strlit("Connected");
    assert("Connected"@.len() == 9);
    reveal_strlit("ReceivedItems");
    assert("ReceivedItems"@.len() == 13);
    reveal_strlit("LocationInfo");
    assert("LocationInfo"@.len() == 12);
    reveal_strlit("RoomUpdate");
    assert("RoomUpdate"@.len() == 10);
    reveal_strlit("Print");
    assert("Print"@.len() == 5);
    reveal_strlit("PrintJSON");
    assert("PrintJSON"@.len() == 9);
    reveal_strlit("DataPackage");
    assert("DataPackage"@.len() == 11);
    reveal_strlit("Bounced");
    assert("Bounced"@.len() == 7);
    reveal_strlit("InvalidPacket");
    assert("InvalidPacket"@.len() == 13);
    reveal_strlit("Retrieved");
    assert("Retrieved"@.len() == 9);
    reveal_strlit("SetReply");
    assert("SetReply"@.len() == 8);
    assert("RoomInfo"@[0] != "SetReply"@[0]);
    assert("Connected"@[0] != "PrintJSON"@[0]);
    assert("Connected"@[0] != "Retrieved"@[0]);
    assert("ReceivedItems"@[0] != "InvalidPacket"@[0]);
    assert("PrintJSON"@[0] != "Retrieved"@[0]);
}

} // verus!
