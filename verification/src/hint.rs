//! The canonical hint record and the two wire shapes that become one.

use vstd::prelude::*;
use crate::error::{ProtocolError, RequiredField};
use crate::server::PrintJSON;
use crate::values::NetworkItem;

verus! {

/// Whether flags mark an item as important: the lowest bit, which says that
/// the item can unlock progress. Both conversions go through this predicate.
pub open spec fn is_important_spec(flags: i32) -> bool {
    flags & 1 == 1
}

#[verifier::when_used_as_spec(is_important_spec)]
pub fn is_important(flags: i32) -> (r: bool)
    ensures
        r == is_important_spec(flags),
{
    flags & 1 == 1
}

/// A revealed fact: `item` is bound for player `receiving`, and whether it
/// was found already. `is_important` is derived from `item.flags`.
#[derive(Clone, Copy, Debug, PartialEq, Eq, Hash, Structural)]
pub struct HintData {
    pub receiving: i32,
    pub item: NetworkItem,
    pub found: bool,
    pub is_important: bool,
}

/// The flat hint record. It has no optional field.
#[derive(Clone, Debug, PartialEq, Eq, Hash)]
pub struct Hint {
    pub receiving_player: i32,
    pub finding_player: i32,
    pub location: i32,
    pub item: i32,
    pub found: bool,
    pub entrance: String,
    pub item_flags: i32,
}

impl HintData {
    /// The record is consistent: its importance is the one that its item's
    /// flags give.
    pub open spec fn well_formed(&self) -> bool {
        self.is_important == is_important_spec(self.item.flags)
    }

    /// The hint that a flat record stands for.
    pub open spec fn of_flat(hint: Hint) -> HintData {
        HintData {
            receiving: hint.receiving_player,
            item: NetworkItem {
                item: hint.item,
                location: hint.location,
                player: hint.finding_player,
                flags: hint.item_flags,
            },
            found: hint.found,
            is_important: is_important_spec(hint.item_flags),
        }
    }

    /// The hint that the optional fields of a `PrintJSON` stand for. The
    /// first absent one of `item`, `receiving`, `found` is reported; no field
    /// is ever replaced by a default.
    pub open spec fn of_parts(
        receiving: Option<i32>,
        item: Option<NetworkItem>,
        found: Option<bool>,
    ) -> Result<HintData, ProtocolError> {
        if item is None {
            Err(ProtocolError::MissingRequiredField(RequiredField::Item))
        } else if receiving is None {
            Err(ProtocolError::MissingRequiredField(RequiredField::Receiving))
        } else if found is None {
            Err(ProtocolError::MissingRequiredField(RequiredField::Found))
        } else {
            Ok(
                HintData {
                    receiving: receiving->0,
                    item: item->0,
                    found: found->0,
                    is_important: is_important_spec((item->0).flags),
                },
            )
        }
    }
}

impl From<Hint> for HintData {
    /// Repackages a flat record. This never fails.
    fn from(value: Hint) -> (r: HintData) {
        let item = NetworkItem {
            item: value.item,
            location: value.location,
            player: value.finding_player,
            flags: value.item_flags,
        };
        HintData {
            receiving: value.receiving_player,
            item,
            found: value.found,
            is_important: is_important(value.item_flags),
        }
    }
}

impl vstd::std_specs::convert::FromSpecImpl<Hint> for HintData {
    open spec fn obeys_from_spec() -> bool {
        true
    }

    open spec fn from_spec(value: Hint) -> HintData {
        HintData::of_flat(value)
    }
}

impl TryFrom<PrintJSON> for HintData {
    type Error = ProtocolError;

    /// Reads a hint-styled `PrintJSON`. It succeeds exactly when `item`,
    /// `receiving` and `found` are all present.
    fn try_from(value: PrintJSON) -> (r: Result<HintData, ProtocolError>) {
        let item = match value.item {
            Some(item) => item,
            None => {
                return Err(ProtocolError::MissingRequiredField(RequiredField::Item));
            },
        };
        let receiving = match value.receiving {
            Some(receiving) => receiving,
            None => {
                return Err(ProtocolError::MissingRequiredField(RequiredField::Receiving));
            },
        };
        let found = match value.found {
            Some(found) => found,
            None => {
                return Err(ProtocolError::MissingRequiredField(RequiredField::Found));
            },
        };
        Ok(HintData { receiving, item, found, is_important: is_important(item.flags) })
    }
}

impl vstd::std_specs::convert::TryFromSpecImpl<PrintJSON> for HintData {
    open spec fn obeys_try_from_spec() -> bool {
        true
    }

    open spec fn try_from_spec(value: PrintJSON) -> Result<HintData, ProtocolError> {
        HintData::of_parts(value.receiving, value.item, value.found)
    }
}

/// Both shapes give the same hint: where a `PrintJSON` carries the fields
/// that a flat record spells out, its conversion succeeds with the record's
/// hint, importance included.
pub proof fn lemma_hint_shapes_agree(packet: PrintJSON, hint: Hint)
    requires
        packet.receiving == Some(hint.receiving_player),
        packet.found == Some(hint.found),
        packet.item == Some(
            NetworkItem {
                item: hint.item,
                location: hint.location,
                player: hint.finding_player,
                flags: hint.item_flags,
            },
        ),
    ensures
        HintData::of_parts(packet.receiving, packet.item, packet.found) == Ok::<
            HintData,
            ProtocolError,
        >(HintData::of_flat(hint)),
        HintData::of_flat(hint).well_formed(),
{
}

/// A conversion succeeds exactly when all three required fields are present,
/// and what it gives is consistent and holds the fields unchanged.
pub proof fn lemma_hint_needs_all_fields(
    receiving: Option<i32>,
    item: Option<NetworkItem>,
    found: Option<bool>,
)
    ensures
        HintData::of_parts(receiving, item, found) is Ok <==> (receiving is Some && item is Some
            && found is Some),
        HintData::of_parts(receiving, item, found) matches Ok(h) ==> h.well_formed()
            && h.receiving == receiving->0 && h.item == item->0 && h.found == found->0,
        HintData::of_parts(receiving, item, found) is Err ==> HintData::of_parts(
            receiving,
            item,
            found,
        )->Err_0 is MissingRequiredField,
{
}

} // verus!
