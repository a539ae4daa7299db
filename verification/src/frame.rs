//! The test of a JSON object against the schema: the `cmd` discriminator,
//! the presence of the required fields, and the shape of every field that
//! is there. Members that the schema does not name are passed over.

use vstd::prelude::*;
use serde_json::Value;
use crate::command::{ClientCommand, ServerCommand};
use crate::error::{MalformedReason, ProtocolError};
use crate::schema::{CodeTable, Container, Field, Record, Shape};
use crate::values::{ClientStatus, Permission, SlotType};
use crate::wire::{
    client_command_in, client_command_of, code_in, code_of, flag, has_member, is_null,
    is_number, items, json_flag, json_is_null, json_is_number, json_items, json_member,
    json_signed, json_text, json_unsigned, json_values, member, server_command_in, server_command_of, signed,
    text, values,
};

verus! {

/// How deep records nest in the schema, the payload counted: a data package
/// holds an object of games, which holds the tables of each game.
pub const MAX_NESTING: u8 = 3;

impl CodeTable {
    /// `code` stands for a value of this enumeration.
    pub open spec fn has_code_spec(self, code: u16) -> bool {
        match self {
            CodeTable::Permission => Permission::of_code(code) is Some,
            CodeTable::SlotType => SlotType::of_code(code) is Some,
            CodeTable::ClientStatus => ClientStatus::of_code(code) is Some,
        }
    }

    pub fn has_code(&self, code: u16) -> (r: bool)
        ensures
            r == self.has_code_spec(code),
    {
        match self {
            CodeTable::Permission => Permission::from_code(code).is_ok(),
            CodeTable::SlotType => SlotType::from_code(code).is_ok(),
            CodeTable::ClientStatus => ClientStatus::from_code(code).is_ok(),
        }
    }
}

/// `value` has the declared `shape`. A record has it where `depth` allows
/// one more level of nesting and each of its fields conforms.
pub open spec fn conforms(value: Value, shape: Shape, depth: nat) -> bool
    decreases depth, 0nat,
{
    match shape {
        Shape::Any => true,
        Shape::Flag => json_flag(value) is Some,
        Shape::Integer => json_signed(value) matches Some(n) && i32::MIN <= n <= i32::MAX,
        Shape::Number => json_is_number(value),
        Shape::Text => json_text(value) is Some,
        Shape::Code(table) => code_in(value) matches Ok(code) && table.has_code_spec(code),
        Shape::Record(record) => depth > 0 && record_conforms(
            value,
            record.fields_spec(),
            (depth - 1) as nat,
        ),
    }
}

/// Every one of `fields` conforms in `object`.
pub open spec fn record_conforms(object: Value, fields: Seq<Field>, depth: nat) -> bool
    decreases depth, 4nat,
{
    forall|i: int| 0 <= i < fields.len() ==> field_conforms(object, #[trigger] fields[i], depth)
}

/// The member of `object` that `field` names conforms: absent or `null` only
/// where the field is not required, else of the declared shape.
pub open spec fn field_conforms(object: Value, field: Field, depth: nat) -> bool
    decreases depth, 3nat,
{
    match json_member(object, field.name@) {
        None => !field.required,
        Some(value) => (!field.required && json_is_null(value)) || holds(
            value,
            field.container,
            field.shape,
            depth,
        ),
    }
}

/// `value` holds what `container` says, each part of the declared `shape`.
pub open spec fn holds(value: Value, container: Container, shape: Shape, depth: nat) -> bool
    decreases depth, 2nat,
{
    match container {
        Container::Single => conforms(value, shape, depth),
        Container::ListOf => json_items(value) matches Some(parts) && all_conform(
            parts,
            shape,
            depth,
        ),
        Container::MapOf => json_values(value) matches Some(parts) && all_conform(
            parts,
            shape,
            depth,
        ),
    }
}

/// Each of `parts` has the declared `shape`.
pub open spec fn all_conform(parts: Seq<Value>, shape: Shape, depth: nat) -> bool
    decreases depth, 1nat,
{
    forall|i: int| 0 <= i < parts.len() ==> conforms(#[trigger] parts[i], shape, depth)
}

/// Every required one of `fields` is a member of `object`.
pub open spec fn has_required(object: Value, fields: Seq<Field>) -> bool {
    forall|i: int|
        0 <= i < fields.len() && (#[trigger] fields[i]).required ==> json_member(
            object,
            fields[i].name@,
        ) is Some
}

/// What the test of a payload gives: a missing field where a required one
/// is absent, else a wrong shape where a field does not conform, else
/// nothing to report.
pub open spec fn payload_result(message: Value, record: Record) -> Result<(), ProtocolError> {
    if !has_required(message, record.fields_spec()) {
        Err(ProtocolError::MalformedMessage(MalformedReason::MissingField))
    } else if !conforms(message, Shape::Record(record), MAX_NESTING as nat) {
        Err(ProtocolError::MalformedMessage(MalformedReason::WrongShape))
    } else {
        Ok(())
    }
}

/// What the frame of a client message gives: its kind, where the
/// discriminator is listed and the payload passes.
pub open spec fn client_frame_in(message: Value) -> Result<ClientCommand, ProtocolError> {
    match client_command_in(message) {
        Err(e) => Err(e),
        Ok(kind) => match payload_result(message, kind.payload_spec()) {
            Err(e) => Err(e),
            Ok(_) => Ok(kind),
        },
    }
}

/// What the frame of a server message gives: its kind, where the
/// discriminator is listed and the payload passes.
pub open spec fn server_frame_in(message: Value) -> Result<ServerCommand, ProtocolError> {
    match server_command_in(message) {
        Err(e) => Err(e),
        Ok(kind) => match payload_result(message, kind.payload_spec()) {
            Err(e) => Err(e),
            Ok(_) => Ok(kind),
        },
    }
}

/// Tests a value against a declared shape, records nested at most `depth`
/// deep.
pub fn check_shape(value: &Value, shape: Shape, depth: u8) -> (r: bool)
    ensures
        r == conforms(*value, shape, depth as nat),
    decreases depth, 0nat,
{
    match shape {
        Shape::Any => true,
        Shape::Flag => flag(value).is_some(),
        Shape::Integer => match signed(value) {
            Some(n) => -2147483648 <= n && n <= 2147483647,
            None => false,
        },
        Shape::Number => is_number(value),
        Shape::Text => text(value).is_some(),
        Shape::Code(table) => match code_of(value) {
            Ok(code) => table.has_code(code),
            Err(_) => false,
        },
        Shape::Record(record) => {
            if depth == 0 {
                false
            } else {
                let fields = record.fields();
                check_fields(value, &fields, depth - 1)
            }
        },
    }
}

/// Tests every field of a record in `object`.
pub fn check_fields(object: &Value, fields: &Vec<Field>, depth: u8) -> (r: bool)
    ensures
        r == record_conforms(*object, fields@, depth as nat),
    decreases depth, 4nat,
{
    let mut at: usize = 0;
    while at < fields.len()
        invariant
            at <= fields@.len(),
            forall|i: int| 0 <= i < at ==> field_conforms(*object, #[trigger] fields@[i], depth as nat),
        decreases fields@.len() - at,
    {
        if !check_field(object, &fields[at], depth) {
            return false;
        }
        at += 1;
    }
    true
}

/// Tests the member of `object` that `field` names.
pub fn check_field(object: &Value, field: &Field, depth: u8) -> (r: bool)
    ensures
        r == field_conforms(*object, *field, depth as nat),
    decreases depth, 3nat,
{
    match member(object, field.name) {
        None => !field.required,
        Some(value) => {
            if !field.required && is_null(value) {
                true
            } else {
                check_parts(value, field.container, field.shape, depth)
            }
        },
    }
}

/// Tests what a field holds: one value, or each element of a list, or each
/// member's value of an object.
pub fn check_parts(value: &Value, container: Container, shape: Shape, depth: u8) -> (r: bool)
    ensures
        r == holds(*value, container, shape, depth as nat),
    decreases depth, 2nat,
{
    match container {
        Container::Single => check_shape(value, shape, depth),
        Container::ListOf => match items(value) {
            None => false,
            Some(parts) => {
                let ok = check_each(&parts, shape, depth);
                proof {
                    lemma_same_parts(parts@, json_items(*value)->0, shape, depth as nat);
                }
                ok
            },
        },
        Container::MapOf => match values(value) {
            None => false,
            Some(parts) => {
                let ok = check_each(&parts, shape, depth);
                proof {
                    lemma_same_parts(parts@, json_values(*value)->0, shape, depth as nat);
                }
                ok
            },
        },
    }
}

/// The values behind the references.
pub open spec fn referents(parts: Seq<&Value>) -> Seq<Value> {
    Seq::new(parts.len(), |i: int| *parts[i])
}

/// Tests each of `parts` against one shape.
pub fn check_each(parts: &Vec<&Value>, shape: Shape, depth: u8) -> (r: bool)
    ensures
        r == all_conform(referents(parts@), shape, depth as nat),
    decreases depth, 1nat,
{
    let mut at: usize = 0;
    while at < parts.len()
        invariant
            at <= parts@.len(),
            forall|i: int|
                0 <= i < at ==> conforms(#[trigger] referents(parts@)[i], shape, depth as nat),
        decreases parts@.len() - at,
    {
        if !check_shape(parts[at], shape, depth) {
            assert(referents(parts@)[at as int] == *parts@[at as int]);
            return false;
        }
        assert(referents(parts@)[at as int] == *parts@[at as int]);
        at += 1;
    }
    true
}

proof fn lemma_same_parts(handed: Seq<&Value>, named: Seq<Value>, shape: Shape, depth: nat)
    requires
        handed.len() == named.len(),
        forall|i: int| 0 <= i < handed.len() ==> *(#[trigger] handed[i]) == named[i],
    ensures
        all_conform(referents(handed), shape, depth) == all_conform(named, shape, depth),
{
    assert(referents(handed) =~= named);
}

/// The place of the first required one of `fields` that `object` lacks, if
/// it lacks one.
pub fn first_absent(object: &Value, fields: &Vec<Field>) -> (r: Option<usize>)
    ensures
        r is None <==> has_required(*object, fields@),
        r matches Some(at) ==> at < fields@.len() && fields@[at as int].required && json_member(
            *object,
            fields@[at as int].name@,
        ) is None && has_required(*object, fields@.take(at as int)),
{
    let mut at: usize = 0;
    while at < fields.len()
        invariant
            at <= fields@.len(),
            has_required(*object, fields@.take(at as int)),
        decreases fields@.len() - at,
    {
        if fields[at].required && !has_member(object, fields[at].name) {
            return Some(at);
        }
        proof {
            let before = fields@.take(at as int);
            let after = fields@.take(at + 1);
            assert forall|i: int| 0 <= i < after.len() && (#[trigger] after[i]).required implies json_member(
                *object,
                after[i].name@,
            ) is Some by {
                if i < at {
                    assert(after[i] == before[i]);
                }
            }
        }
        at += 1;
    }
    proof {
        assert(fields@.take(at as int) =~= fields@);
    }
    None
}

/// Tests a payload against the record of its kind.
pub fn check_payload(message: &Value, record: Record) -> (r: Result<(), ProtocolError>)
    ensures
        r == payload_result(*message, record),
{
    let fields = record.fields();
    match first_absent(message, &fields) {
        Some(_) => Err(ProtocolError::MalformedMessage(MalformedReason::MissingField)),
        None => if check_shape(message, Shape::Record(record), MAX_NESTING) {
            Ok(())
        } else {
            Err(ProtocolError::MalformedMessage(MalformedReason::WrongShape))
        },
    }
}

/// Reads the frame of a message that a client sent: the discriminator
/// first, then the payload.
pub fn client_frame_of(message: &Value) -> (r: Result<ClientCommand, ProtocolError>)
    ensures
        r == client_frame_in(*message),
{
    match client_command_of(message) {
        Err(e) => Err(e),
        Ok(kind) => match check_payload(message, kind.payload()) {
            Err(e) => Err(e),
            Ok(_) => Ok(kind),
        },
    }
}

/// Reads the frame of a message that a server sent: the discriminator
/// first, then the payload.
pub fn server_frame_of(message: &Value) -> (r: Result<ServerCommand, ProtocolError>)
    ensures
        r == server_frame_in(*message),
{
    match server_command_of(message) {
        Err(e) => Err(e),
        Ok(kind) => match check_payload(message, kind.payload()) {
            Err(e) => Err(e),
            Ok(_) => Ok(kind),
        },
    }
}

/// A frame is valid exactly when the discriminator is listed, each required
/// field of the kind is a member and the payload conforms; every failure is
/// a malformed message.
pub proof fn lemma_frame_failures_are_malformed(message: Value)
    ensures
        client_frame_in(message) is Ok <==> client_command_in(message) is Ok && has_required(
            message,
            client_command_in(message)->Ok_0.payload_spec().fields_spec(),
        ) && conforms(
            message,
            Shape::Record(client_command_in(message)->Ok_0.payload_spec()),
            MAX_NESTING as nat,
        ),
        server_frame_in(message) is Ok <==> server_command_in(message) is Ok && has_required(
            message,
            server_command_in(message)->Ok_0.payload_spec().fields_spec(),
        ) && conforms(
            message,
            Shape::Record(server_command_in(message)->Ok_0.payload_spec()),
            MAX_NESTING as nat,
        ),
        client_frame_in(message) is Err ==> client_frame_in(message)->Err_0 is MalformedMessage,
        server_frame_in(message) is Err ==> server_frame_in(message)->Err_0 is MalformedMessage,
{
}

/// A room update is sparse: none of its fields is required, so no message
/// fails for a field that it leaves out, and a `RoomUpdate` passes exactly
/// when the fields that are there conform. The same holds of
/// `GetDataPackage`.
pub proof fn lemma_sparse_payloads_require_nothing(message: Value)
    ensures
        has_required(message, Record::RoomUpdate.fields_spec()),
        has_required(message, Record::GetDataPackage.fields_spec()),
        payload_result(message, Record::RoomUpdate) is Ok <==> conforms(
            message,
            Shape::Record(Record::RoomUpdate),
            MAX_NESTING as nat,
        ),
{
    let fields = Record::RoomUpdate.fields_spec();
    assert forall|i: int| 0 <= i < fields.len() implies !(#[trigger] fields[i]).required by {}
    let games = Record::GetDataPackage.fields_spec();
    assert forall|i: int| 0 <= i < games.len() implies !(#[trigger] games[i]).required by {}
}

/// What the enumerations encode to has their declared shape: a value from
/// which `as_u64` reads the code of a permission, a slot type or a status
/// conforms to that enumeration's shape.
pub proof fn lemma_codes_conform(value: Value, p: Permission, t: SlotType, s: ClientStatus)
    ensures
        json_unsigned(value) == Some(p.code_spec() as u64) ==> conforms(
            value,
            Shape::Code(CodeTable::Permission),
            0,
        ),
        json_unsigned(value) == Some(t.code_spec() as u64) ==> conforms(
            value,
            Shape::Code(CodeTable::SlotType),
            0,
        ),
        json_unsigned(value) == Some(s.code_spec() as u64) ==> conforms(
            value,
            Shape::Code(CodeTable::ClientStatus),
            0,
        ),
{
}

/// No record of the schema nests deeper than `MAX_NESTING`, and each field
/// of a record nests less deep than the record.
pub proof fn lemma_fields_nest_less(record: Record)
    ensures
        1 <= record.nesting() <= MAX_NESTING,
        forall|i: int|
            0 <= i < record.fields_spec().len() ==> (#[trigger] record.fields_spec()[i]).shape.nesting()
                < record.nesting(),
{
}

/// The bound on nesting rejects nothing: a value conforms to a shape at one
/// depth that the shape's own nesting fits in exactly when it does at any
/// other such depth, `MAX_NESTING` among them.
pub proof fn lemma_depth_suffices(value: Value, shape: Shape, depth: nat)
    requires
        depth >= shape.nesting(),
    ensures
        conforms(value, shape, depth) == conforms(value, shape, shape.nesting()),
    decreases shape.nesting(), 0nat,
{
    match shape {
        Shape::Record(record) => {
            let fields = record.fields_spec();
            let least = record.nesting();
            lemma_fields_nest_less(record);
            assert forall|i: int| 0 <= i < fields.len() implies field_conforms(
                value,
                #[trigger] fields[i],
                (depth - 1) as nat,
            ) == field_conforms(value, fields[i], (least - 1) as nat) by {
                let field = fields[i];
                match json_member(value, field.name@) {
                    Some(part) => {
                        lemma_parts_at_any_depth(
                            part,
                            field.container,
                            field.shape,
                            (depth - 1) as nat,
                            (least - 1) as nat,
                        );
                    },
                    None => {},
                }
            }
        },
        _ => {},
    }
}

proof fn lemma_parts_at_any_depth(
    value: Value,
    container: Container,
    shape: Shape,
    one: nat,
    other: nat,
)
    requires
        one >= shape.nesting(),
        other >= shape.nesting(),
    ensures
        holds(value, container, shape, one) == holds(value, container, shape, other),
    decreases shape.nesting(), 1nat,
{
    lemma_depth_suffices(value, shape, one);
    lemma_depth_suffices(value, shape, other);
    if json_items(value) is Some {
        let parts = json_items(value)->0;
        assert forall|i: int| 0 <= i < parts.len() implies conforms(
            #[trigger] parts[i],
            shape,
            one,
        ) == conforms(parts[i], shape, other) by {
            lemma_depth_suffices(parts[i], shape, one);
            lemma_depth_suffices(parts[i], shape, other);
        }
    }
    if json_values(value) is Some {
        let parts = json_values(value)->0;
        assert forall|i: int| 0 <= i < parts.len() implies conforms(
            #[trigger] parts[i],
            shape,
            one,
        ) == conforms(parts[i], shape, other) by {
            lemma_depth_suffices(parts[i], shape, one);
            lemma_depth_suffices(parts[i], shape, other);
        }
    }
}

/// No record has a field named `cmd`: the discriminator never hides a field.
pub proof fn lemma_no_field_is_cmd(record: Record)
    ensures
        forall|i: int|
            0 <= i < record.fields_spec().len() ==> (#[trigger] record.fields_spec()[i]).name@
                != "cmd"@,
{
    reveal_strlit("cmd");
    reveal_strlit("alias");
    assert("alias"@.len() == 5);
    reveal_strlit("build");
    assert("build"@.len() == 5);
    reveal_strlit("checked_locations");
    assert("checked_locations"@.len() == 17);
    reveal_strlit("class");
    assert("class"@.len() == 5);
    reveal_strlit("collect");
    assert("collect"@.len() == 7);
    reveal_strlit("color");
    assert("color"@.len() == 5);
    reveal_strlit("countdown");
    assert("countdown"@.len() == 9);
    reveal_strlit("create_as_hint");
    assert("create_as_hint"@.len() == 14);
    reveal_strlit("data");
    assert("data"@.len() == 4);
    reveal_strlit("datapackage_checksums");
    assert("datapackage_checksums"@.len() == 21);
    reveal_strlit("datapackage_versions");
    assert("datapackage_versions"@.len() == 20);
    reveal_strlit("default");
    assert("default"@.len() == 7);
    reveal_strlit("entrance");
    assert("entrance"@.len() == 8);
    reveal_strlit("errors");
    assert("errors"@.len() == 6);
    reveal_strlit("finding_player");
    assert("finding_player"@.len() == 14);
    reveal_strlit("flags");
    assert("flags"@.len() == 5);
    reveal_strlit("found");
    assert("found"@.len() == 5);
    reveal_strlit("game");
    assert("game"@.len() == 4);
    reveal_strlit("games");
    assert("games"@.len() == 5);
    reveal_strlit("generator_version");
    assert("generator_version"@.len() == 17);
    reveal_strlit("group_members");
    assert("group_members"@.len() == 13);
    reveal_strlit("hint_cost");
    assert("hint_cost"@.len() == 9);
    reveal_strlit("hint_points");
    assert("hint_points"@.len() == 11);
    reveal_strlit("index");
    assert("index"@.len() == 5);
    reveal_strlit("item");
    assert("item"@.len() == 4);
    reveal_strlit("item_flags");
    assert("item_flags"@.len() == 10);
    reveal_strlit("item_name_to_id");
    assert("item_name_to_id"@.len() == 15);
    reveal_strlit("items");
    assert("items"@.len() == 5);
    reveal_strlit("items_handling");
    assert("items_handling"@.len() == 14);
    reveal_strlit("key");
    assert("key"@[0] != "cmd"@[0]);
    reveal_strlit("keys");
    assert("keys"@.len() == 4);
    reveal_strlit("location");
    assert("location"@.len() == 8);
    reveal_strlit("location_check_points");
    assert("location_check_points"@.len() == 21);
    reveal_strlit("location_name_to_id");
    assert("location_name_to_id"@.len() == 19);
    reveal_strlit("locations");
    assert("locations"@.len() == 9);
    reveal_strlit("major");
    assert("major"@.len() == 5);
    reveal_strlit("minor");
    assert("minor"@.len() == 5);
    reveal_strlit("missing_locations");
    assert("missing_locations"@.len() == 17);
    reveal_strlit("name");
    assert("name"@.len() == 4);
    reveal_strlit("operations");
    assert("operations"@.len() == 10);
    reveal_strlit("original_cmd");
    assert("original_cmd"@.len() == 12);
    reveal_strlit("original_value");
    assert("original_value"@.len() == 14);
    reveal_strlit("password");
    assert("password"@.len() == 8);
    reveal_strlit("permissions");
    assert("permissions"@.len() == 11);
    reveal_strlit("player");
    assert("player"@.len() == 6);
    reveal_strlit("players");
    assert("players"@.len() == 7);
    reveal_strlit("receiving");
    assert("receiving"@.len() == 9);
    reveal_strlit("receiving_player");
    assert("receiving_player"@.len() == 16);
    reveal_strlit("release");
    assert("release"@.len() == 7);
    reveal_strlit("remaining");
    assert("remaining"@.len() == 9);
    reveal_strlit("replace");
    assert("replace"@.len() == 7);
    reveal_strlit("seed_name");
    assert("seed_name"@.len() == 9);
    reveal_strlit("slot");
    assert("slot"@.len() == 4);
    reveal_strlit("slot_data");
    assert("slot_data"@.len() == 9);
    reveal_strlit("slot_info");
    assert("slot_info"@.len() == 9);
    reveal_strlit("slots");
    assert("slots"@.len() == 5);
    reveal_strlit("status");
    assert("status"@.len() == 6);
    reveal_strlit("tags");
    assert("tags"@.len() == 4);
    reveal_strlit("team");
    assert("team"@.len() == 4);
    reveal_strlit("text");
    assert("text"@.len() == 4);
    reveal_strlit("time");
    assert("time"@.len() == 4);
    reveal_strlit("type");
    assert("type"@.len() == 4);
    reveal_strlit("uuid");
    assert("uuid"@.len() == 4);
    reveal_strlit("value");
    assert("value"@.len() == 5);
    reveal_strlit("version");
    assert("version"@.len() == 7);
    reveal_strlit("want_reply");
    assert("want_reply"@.len() == 10);
}

/// Tagging keeps the payload: where two objects agree on every member but
/// `cmd`, the test of a record's payload gives the same for both.
pub proof fn lemma_payload_ignores_cmd(fields: Value, message: Value, record: Record)
    requires
        forall|other: Seq<char>|
            other != "cmd"@ ==> #[trigger] json_member(message, other) == json_member(
                fields,
                other,
            ),
    ensures
        payload_result(message, record) == payload_result(fields, record),
{
    lemma_no_field_is_cmd(record);
    let list = record.fields_spec();
    let depth = (MAX_NESTING - 1) as nat;
    assert forall|i: int| 0 <= i < list.len() implies json_member(
        message,
        (#[trigger] list[i]).name@,
    ) == json_member(fields, list[i].name@) by {}
    assert(has_required(message, list) == has_required(fields, list));
    assert forall|i: int| 0 <= i < list.len() implies field_conforms(
        message,
        #[trigger] list[i],
        depth,
    ) == field_conforms(fields, list[i], depth) by {}
    assert(record_conforms(message, list, depth) == record_conforms(fields, list, depth));
}

/// Encoding and reading back agree on the frame: a payload that passes the
/// test of a kind's record, with that kind's `cmd` among its fields, has a
/// valid frame of that kind.
pub proof fn lemma_tagged_payload_has_its_frame(
    fields: Value,
    message: Value,
    client: ClientCommand,
    server: ServerCommand,
)
    requires
        forall|other: Seq<char>|
            other != "cmd"@ ==> #[trigger] json_member(message, other) == json_member(
                fields,
                other,
            ),
    ensures
        client_command_in(message) == Ok::<ClientCommand, ProtocolError>(client)
            && payload_result(fields, client.payload_spec()) is Ok ==> client_frame_in(message)
            == Ok::<ClientCommand, ProtocolError>(client),
        server_command_in(message) == Ok::<ServerCommand, ProtocolError>(server)
            && payload_result(fields, server.payload_spec()) is Ok ==> server_frame_in(message)
            == Ok::<ServerCommand, ProtocolError>(server),
{
    lemma_payload_ignores_cmd(fields, message, client.payload_spec());
    lemma_payload_ignores_cmd(fields, message, server.payload_spec());
}

} // verus!
