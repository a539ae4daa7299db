//! What the schema reads out of a JSON value itself: the `cmd` discriminator
//! that stands among a message's fields, and the numeric codes of the
//! enumerations. A JSON tree is opaque here: each accessor of `serde_json`
//! that the schema goes through has a name for what it returns, and the
//! contracts speak of those names. The payload-agnostic fields stay JSON
//! trees, unread.

use vstd::prelude::*;
use serde_json::Value;
use crate::client::ClientMessage;
use crate::command::{ClientCommand, ServerCommand};
use crate::error::{MalformedReason, ProtocolError};
use crate::server::ServerMessage;
use crate::values::{code_result, ClientStatus, Permission, SlotType};

verus! {

/// A JSON tree of `serde_json`. Nothing of its inside is visible here.
#[verifier::external_type_specification]
#[verifier::external_body]
pub struct ExValue(serde_json::Value);

/// The member that `serde_json::Value::get` finds under a string key.
pub uninterp spec fn json_member(object: Value, key: Seq<char>) -> Option<Value>;

/// The text that `serde_json::Value::as_str` reads from a value.
pub uninterp spec fn json_text(value: Value) -> Option<Seq<char>>;

/// The number that `serde_json::Value::as_u64` reads from a value.
pub uninterp spec fn json_unsigned(value: Value) -> Option<u64>;

/// The number that `serde_json::Value::as_i64` reads from a value.
pub uninterp spec fn json_signed(value: Value) -> Option<i64>;

/// The truth value that `serde_json::Value::as_bool` reads from a value.
pub uninterp spec fn json_flag(value: Value) -> Option<bool>;

/// What `serde_json::Value::is_number` says of a value.
pub uninterp spec fn json_is_number(value: Value) -> bool;

/// What `serde_json::Value::is_null` says of a value.
pub uninterp spec fn json_is_null(value: Value) -> bool;

/// The elements that `serde_json::Value::as_array` finds in a value.
pub uninterp spec fn json_items(value: Value) -> Option<Seq<Value>>;

/// The members' values that `serde_json::Map::values` walks in the object
/// that `serde_json::Value::as_object` finds in a value.
pub uninterp spec fn json_values(value: Value) -> Option<Seq<Value>>;

/// What `serde_json::Value::is_object` says of a value.
pub uninterp spec fn json_is_object(value: Value) -> bool;

/// `serde_json::Value::get` with a string key: the member of that name where
/// the value is an object that has one, else nothing. The contract only
/// names what comes back.
#[verifier::external_body]
pub(crate) fn member<'a>(object: &'a Value, key: &str) -> (r: Option<&'a Value>)
    ensures
        r is Some <==> json_member(*object, key@) is Some,
        r matches Some(v) ==> Some(*v) == json_member(*object, key@),
{
    object.get(key)
}

/// Whether `message` has a member named `key`.
pub fn has_member(message: &Value, key: &str) -> (r: bool)
    ensures
        r == (json_member(*message, key@) is Some),
{
    member(message, key).is_some()
}

/// `serde_json::Value::as_str`: the text where the value is a JSON string,
/// else nothing. The contract only names what comes back.
#[verifier::external_body]
pub(crate) fn text<'a>(value: &'a Value) -> (r: Option<&'a str>)
    ensures
        r is Some <==> json_text(*value) is Some,
        r matches Some(s) ==> Some(s@) == json_text(*value),
{
    value.as_str()
}

/// `serde_json::Value::as_u64`: the number where the value is a
/// non-negative JSON integer that fits, else nothing. The contract only
/// names what comes back.
#[verifier::external_body]
fn unsigned(value: &Value) -> (r: Option<u64>)
    ensures
        r == json_unsigned(*value),
{
    value.as_u64()
}

/// `serde_json::Value::as_i64`: the number where the value is a JSON integer
/// that fits in 64 bits, signed, else nothing. The contract only names what
/// comes back.
#[verifier::external_body]
pub(crate) fn signed(value: &Value) -> (r: Option<i64>)
    ensures
        r == json_signed(*value),
{
    value.as_i64()
}

/// `serde_json::Value::as_bool`: the truth value where the value is `true`
/// or `false`, else nothing. The contract only names what comes back.
#[verifier::external_body]
pub(crate) fn flag(value: &Value) -> (r: Option<bool>)
    ensures
        r == json_flag(*value),
{
    value.as_bool()
}

/// `serde_json::Value::is_number`: whether the value is a JSON number. The
/// contract only names what comes back.
#[verifier::external_body]
pub(crate) fn is_number(value: &Value) -> (r: bool)
    ensures
        r == json_is_number(*value),
{
    value.is_number()
}

/// `serde_json::Value::is_null`: whether the value is `null`. The contract
/// only names what comes back.
#[verifier::external_body]
pub(crate) fn is_null(value: &Value) -> (r: bool)
    ensures
        r == json_is_null(*value),
{
    value.is_null()
}

/// `serde_json::Value::as_array`: the elements, in order, where the value is
/// a JSON array, else nothing. The contract only names what comes back,
/// element by element.
#[verifier::external_body]
pub(crate) fn items<'a>(value: &'a Value) -> (r: Option<Vec<&'a Value>>)
    ensures
        r is Some <==> json_items(*value) is Some,
        r matches Some(list) ==> list@.len() == json_items(*value)->0.len() && forall|i: int|
            0 <= i < list@.len() ==> *(#[trigger] list@[i]) == json_items(*value)->0[i],
{
    value.as_array().map(|list| list.iter().collect())
}

/// `serde_json::Value::as_object` and `serde_json::Map::values`: the values
/// of the members, in the map's order, where the value is a JSON object,
/// else nothing. The contract only names what comes back, value by value.
#[verifier::external_body]
pub(crate) fn values<'a>(value: &'a Value) -> (r: Option<Vec<&'a Value>>)
    ensures
        r is Some <==> json_values(*value) is Some,
        r matches Some(list) ==> list@.len() == json_values(*value)->0.len() && forall|i: int|
            0 <= i < list@.len() ==> *(#[trigger] list@[i]) == json_values(*value)->0[i],
{
    value.as_object().map(|object| object.values().collect())
}

/// `serde_json::Value::is_object`: whether the value is a JSON object. The
/// contract only names what comes back.
#[verifier::external_body]
pub(crate) fn is_object(value: &Value) -> (r: bool)
    ensures
        r == json_is_object(*value),
{
    value.is_object()
}

/// `serde_json::Map::insert` on the map of an object, with a JSON string as
/// the value: the object then has that string under `key`, and under every
/// other key what it had before.
#[verifier::external_body]
fn with_text(object: Value, key: &str, content: &str) -> (r: Value)
    requires
        json_is_object(object),
    ensures
        json_is_object(r),
        json_member(r, key@) is Some,
        json_text(json_member(r, key@)->0) == Some(content@),
        forall|other: Seq<char>|
            other != key@ ==> #[trigger] json_member(r, other) == json_member(object, other),
{
    let mut object = object;
    if let Some(map) = object.as_object_mut() {
        map.insert(key.to_owned(), Value::String(content.to_owned()));
    }
    object
}

/// `serde_json::Value::from` on a `u16`: a JSON number from which `as_u64`
/// reads the same integer back.
#[verifier::external_body]
fn number(code: u16) -> (r: Value)
    ensures
        json_unsigned(r) == Some(code as u64),
{
    Value::from(code)
}

/// What reading a discriminator gives: the kind, or the failure that reports
/// an unlisted `cmd`.
pub open spec fn command_result<K>(kind: Option<K>) -> Result<K, ProtocolError> {
    match kind {
        Some(k) => Ok(k),
        None => Err(ProtocolError::MalformedMessage(MalformedReason::UnknownCommand)),
    }
}

/// The `cmd` of a message, given what `get("cmd")` found and what `as_str`
/// read from it: absent is a missing field, anything but a string is a wrong
/// shape.
pub open spec fn cmd_text(message: Value) -> Result<Seq<char>, ProtocolError> {
    match json_member(message, "cmd"@) {
        None => Err(ProtocolError::MalformedMessage(MalformedReason::MissingField)),
        Some(tag) => match json_text(tag) {
            None => Err(ProtocolError::MalformedMessage(MalformedReason::WrongShape)),
            Some(cmd) => Ok(cmd),
        },
    }
}

/// The kind of client message that a JSON value announces.
pub open spec fn client_command_in(message: Value) -> Result<ClientCommand, ProtocolError> {
    match cmd_text(message) {
        Err(e) => Err(e),
        Ok(cmd) => command_result(ClientCommand::named(cmd)),
    }
}

/// The kind of server message that a JSON value announces.
pub open spec fn server_command_in(message: Value) -> Result<ServerCommand, ProtocolError> {
    match cmd_text(message) {
        Err(e) => Err(e),
        Ok(cmd) => command_result(ServerCommand::named(cmd)),
    }
}

/// The enumeration code that a JSON value holds: a non-negative integer
/// that fits in 16 bits. A larger integer is out of range; anything else, a
/// negative number or a fraction among it, is a wrong shape.
pub open spec fn code_in(value: Value) -> Result<u16, ProtocolError> {
    match json_unsigned(value) {
        None => Err(ProtocolError::MalformedMessage(MalformedReason::WrongShape)),
        Some(n) => if n <= u16::MAX {
            Ok(n as u16)
        } else {
            Err(ProtocolError::MalformedMessage(MalformedReason::CodeOutOfRange))
        },
    }
}

/// What decoding an enumeration from a JSON value gives, for the
/// enumeration whose code table is `of_code`.
pub open spec fn enumeration_in<T>(value: Value, of_code: spec_fn(u16) -> Option<T>) -> Result<
    T,
    ProtocolError,
> {
    match code_in(value) {
        Err(e) => Err(e),
        Ok(code) => code_result(of_code(code)),
    }
}

/// Reads the discriminator of a message that a client sent.
pub fn client_command_of(message: &Value) -> (r: Result<ClientCommand, ProtocolError>)
    ensures
        r == client_command_in(*message),
{
    match member(message, "cmd") {
        None => Err(ProtocolError::MalformedMessage(MalformedReason::MissingField)),
        Some(tag) => match text(tag) {
            None => Err(ProtocolError::MalformedMessage(MalformedReason::WrongShape)),
            Some(cmd) => ClientCommand::parse(cmd),
        },
    }
}

/// Reads the discriminator of a message that a server sent.
pub fn server_command_of(message: &Value) -> (r: Result<ServerCommand, ProtocolError>)
    ensures
        r == server_command_in(*message),
{
    match member(message, "cmd") {
        None => Err(ProtocolError::MalformedMessage(MalformedReason::MissingField)),
        Some(tag) => match text(tag) {
            None => Err(ProtocolError::MalformedMessage(MalformedReason::WrongShape)),
            Some(cmd) => ServerCommand::parse(cmd),
        },
    }
}

/// Puts a discriminator among the fields of a payload. Only an object has
/// members: anything else is not taken.
pub fn tagged(fields: Value, cmd: &str) -> (r: Option<Value>)
    ensures
        r is Some <==> json_is_object(fields),
        r matches Some(message) ==> json_is_object(message) && cmd_text(message) == Ok::<
            Seq<char>,
            ProtocolError,
        >(cmd@) && forall|other: Seq<char>|
            other != "cmd"@ ==> #[trigger] json_member(message, other) == json_member(
                fields,
                other,
            ),
{
    if is_object(&fields) {
        Some(with_text(fields, "cmd", cmd))
    } else {
        None
    }
}

impl ClientMessage {
    /// The wire form of this message, given its fields as a JSON object: the
    /// fields as they are, and among them the `cmd` that reads back as this
    /// message's kind.
    pub fn with_cmd(&self, fields: Value) -> (r: Option<Value>)
        ensures
            r is Some <==> json_is_object(fields),
            r matches Some(message) ==> client_command_in(message) == Ok::<
                ClientCommand,
                ProtocolError,
            >(self.command_spec()) && forall|other: Seq<char>|
                other != "cmd"@ ==> #[trigger] json_member(message, other) == json_member(
                    fields,
                    other,
                ),
    {
        tagged(fields, self.cmd())
    }
}

impl ServerMessage {
    /// The wire form of this message, given its fields as a JSON object: the
    /// fields as they are, and among them the `cmd` that reads back as this
    /// message's kind.
    pub fn with_cmd(&self, fields: Value) -> (r: Option<Value>)
        ensures
            r is Some <==> json_is_object(fields),
            r matches Some(message) ==> server_command_in(message) == Ok::<
                ServerCommand,
                ProtocolError,
            >(self.command_spec()) && forall|other: Seq<char>|
                other != "cmd"@ ==> #[trigger] json_member(message, other) == json_member(
                    fields,
                    other,
                ),
    {
        tagged(fields, self.cmd())
    }
}

/// Reads an enumeration code out of a JSON value.
pub fn code_of(value: &Value) -> (r: Result<u16, ProtocolError>)
    ensures
        r == code_in(*value),
{
    match unsigned(value) {
        None => Err(ProtocolError::MalformedMessage(MalformedReason::WrongShape)),
        Some(n) => if n <= 65535 {
            Ok(n as u16)
        } else {
            Err(ProtocolError::MalformedMessage(MalformedReason::CodeOutOfRange))
        },
    }
}

impl Permission {
    /// Decodes a permission from its JSON form, a number.
    pub fn from_json(value: &Value) -> (r: Result<Permission, ProtocolError>)
        ensures
            r == enumeration_in(*value, |c: u16| Permission::of_code(c)),
    {
        match code_of(value) {
            Err(e) => Err(e),
            Ok(code) => Permission::from_code(code),
        }
    }

    /// The JSON form: the code as a number, never the name.
    pub fn to_json(&self) -> (r: Value)
        ensures
            json_unsigned(r) == Some(self.code_spec() as u64),
            enumeration_in(r, |c: u16| Permission::of_code(c)) == Ok::<Permission, ProtocolError>(
                *self,
            ),
    {
        number(self.code())
    }
}

impl SlotType {
    /// Decodes a slot type from its JSON form, a number.
    pub fn from_json(value: &Value) -> (r: Result<SlotType, ProtocolError>)
        ensures
            r == enumeration_in(*value, |c: u16| SlotType::of_code(c)),
    {
        match code_of(value) {
            Err(e) => Err(e),
            Ok(code) => SlotType::from_code(code),
        }
    }

    /// The JSON form: the code as a number, never the name.
    pub fn to_json(&self) -> (r: Value)
        ensures
            json_unsigned(r) == Some(self.code_spec() as u64),
            enumeration_in(r, |c: u16| SlotType::of_code(c)) == Ok::<SlotType, ProtocolError>(
                *self,
            ),
    {
        number(self.code())
    }
}

impl ClientStatus {
    /// Decodes a status from its JSON form, a number.
    pub fn from_json(value: &Value) -> (r: Result<ClientStatus, ProtocolError>)
        ensures
            r == enumeration_in(*value, |c: u16| ClientStatus::of_code(c)),
    {
        match code_of(value) {
            Err(e) => Err(e),
            Ok(code) => ClientStatus::from_code(code),
        }
    }

    /// The JSON form: the code as a number, never the name.
    pub fn to_json(&self) -> (r: Value)
        ensures
            json_unsigned(r) == Some(self.code_spec() as u64),
            enumeration_in(r, |c: u16| ClientStatus::of_code(c)) == Ok::<
                ClientStatus,
                ProtocolError,
            >(*self),
    {
        number(self.code())
    }
}

/// Decoding undoes encoding for the three enumerations: a JSON value from
/// which `as_u64` reads a value's code decodes to that value.
pub proof fn lemma_enumerations_round_trip(
    value: Value,
    p: Permission,
    t: SlotType,
    s: ClientStatus,
)
    ensures
        json_unsigned(value) == Some(p.code_spec() as u64) ==> enumeration_in(
            value,
            |c: u16| Permission::of_code(c),
        ) == Ok::<Permission, ProtocolError>(p),
        json_unsigned(value) == Some(t.code_spec() as u64) ==> enumeration_in(
            value,
            |c: u16| SlotType::of_code(c),
        ) == Ok::<SlotType, ProtocolError>(t),
        json_unsigned(value) == Some(s.code_spec() as u64) ==> enumeration_in(
            value,
            |c: u16| ClientStatus::of_code(c),
        ) == Ok::<ClientStatus, ProtocolError>(s),
{
}

/// Every listed `cmd` value is read as its kind, and no other string is read
/// as any: a message announces a kind exactly when its `cmd` member is a
/// string that is the kind's name.
pub proof fn lemma_discriminator_exhaustive(message: Value, c: ClientCommand, s: ServerCommand)
    ensures
        client_command_in(message) == Ok::<ClientCommand, ProtocolError>(c) <==> cmd_text(message)
            == Ok::<Seq<char>, ProtocolError>(c.name_spec()),
        server_command_in(message) == Ok::<ServerCommand, ProtocolError>(s) <==> cmd_text(message)
            == Ok::<Seq<char>, ProtocolError>(s.name_spec()),
        client_command_in(message) is Err ==> client_command_in(message)->Err_0 is MalformedMessage,
        server_command_in(message) is Err ==> server_command_in(message)->Err_0 is MalformedMessage,
{
    if cmd_text(message) is Ok {
        crate::command::lemma_client_command_names(c, cmd_text(message)->Ok_0);
        crate::command::lemma_server_command_names(s, cmd_text(message)->Ok_0);
    }
}

} // verus!
