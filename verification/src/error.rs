//! Failures that the schema layer reports. None of them ends the process.

use vstd::prelude::*;

verus! {

/// Why a wire payload was rejected.
#[derive(Clone, Copy, Debug, PartialEq, Eq, Hash, Structural)]
pub enum MalformedReason {
    /// The `cmd` discriminator names no message of the expected direction.
    UnknownCommand,
    /// A field that the variant requires is absent.
    MissingField,
    /// A field's JSON shape does not match its declared type.
    WrongShape,
    /// An integer that stands for an enumeration is not one of its codes.
    CodeOutOfRange,
}

/// A field that a hint-styled `PrintJSON` must carry.
#[derive(Clone, Copy, Debug, PartialEq, Eq, Hash, Structural)]
pub enum RequiredField {
    Item,
    Receiving,
    Found,
}

#[derive(Clone, Copy, Debug, PartialEq, Eq, Hash, Structural)]
pub enum ProtocolError {
    /// The offending message is to be rejected; the connection goes on.
    MalformedMessage(MalformedReason),
    /// A hint conversion found a required field absent.
    MissingRequiredField(RequiredField),
}

impl RequiredField {
    /// The field's name on the wire.
    pub open spec fn name_spec(self) -> Seq<char> {
        match self {
            RequiredField::Item => "item"@,
            RequiredField::Receiving => "receiving"@,
            RequiredField::Found => "found"@,
        }
    }

    pub fn name(&self) -> (r: &'static str)
        ensures
            r@ == self.name_spec(),
    {
        match self {
            RequiredField::Item => "item",
            RequiredField::Receiving => "receiving",
            RequiredField::Found => "found",
        }
    }
}

impl ProtocolError {
    /// The text that stands for this failure in a report.
    pub open spec fn describe_spec(self) -> Seq<char> {
        match self {
            ProtocolError::MalformedMessage(MalformedReason::UnknownCommand) =>
                "malformed message: unknown command"@,
            ProtocolError::MalformedMessage(MalformedReason::MissingField) =>
                "malformed message: a required field is missing"@,
            ProtocolError::MalformedMessage(MalformedReason::WrongShape) =>
                "malformed message: a field has the wrong shape"@,
            ProtocolError::MalformedMessage(MalformedReason::CodeOutOfRange) =>
                "malformed message: enumeration code out of range"@,
            ProtocolError::MissingRequiredField(f) =>
                "missing required field in PrintJSON packet: "@ + f.name_spec(),
        }
    }

    pub fn describe(&self) -> (r: String)
        ensures
            r@ == self.describe_spec(),
    {
        match self {
            ProtocolError::MalformedMessage(MalformedReason::UnknownCommand) =>
                "malformed message: unknown command".to_owned(),
            ProtocolError::MalformedMessage(MalformedReason::MissingField) =>
                "malformed message: a required field is missing".to_owned(),
            ProtocolError::MalformedMessage(MalformedReason::WrongShape) =>
                "malformed message: a field has the wrong shape".to_owned(),
            ProtocolError::MalformedMessage(MalformedReason::CodeOutOfRange) =>
                "malformed message: enumeration code out of range".to_owned(),
            ProtocolError::MissingRequiredField(f) => {
                let mut text = "missing required field in PrintJSON packet: ".to_owned();
                text.append(f.name());
                text
            },
        }
    }
}

} // verus!
