use multiworld_protocol::error::{ProtocolError, RequiredField};
use multiworld_protocol::hint::{is_important, Hint, HintData};
use multiworld_protocol::server::{JSONMessagePart, PrintJSON};
use multiworld_protocol::values::NetworkItem;
use std::collections::hash_map::DefaultHasher;
use std::hash::{Hash, Hasher};

fn packet(receiving: Option<i32>, item: Option<NetworkItem>, found: Option<bool>) -> PrintJSON {
    PrintJSON {
        data: vec![JSONMessagePart {
            kind: Some("text".to_string()),
            text: Some("hint".to_string()),
            color: None,
            flags: None,
            player: None,
        }],
        kind: Some("Hint".to_string()),
        receiving,
        item,
        found,
        countdown: None,
    }
}

fn flat(flags: i32) -> Hint {
    Hint {
        receiving_player: 7,
        finding_player: 3,
        location: 2,
        item: 1,
        found: true,
        entrance: String::new(),
        item_flags: flags,
    }
}

#[test]
fn importance_is_the_lowest_flag_bit() {
    assert!(!is_important(0));
    assert!(is_important(1));
    assert!(!is_important(2));
    assert!(is_important(3));
    assert!(!is_important(4));
    assert!(is_important(-1));
    assert!(!is_important(i32::MIN));
    assert!(is_important(i32::MAX));
}

#[test]
fn both_shapes_give_the_same_hint() {
    let item = NetworkItem { item: 1, location: 2, player: 3, flags: 1 };
    let from_packet = HintData::try_from(packet(Some(7), Some(item), Some(true)));
    let from_flat = HintData::from(flat(1));
    let expected = HintData { receiving: 7, item, found: true, is_important: true };
    assert_eq!(from_packet, Ok(expected));
    assert_eq!(from_flat, expected);
    assert_eq!(from_packet.unwrap().is_important, from_flat.is_important);
}

#[test]
fn both_shapes_agree_on_unimportant_items() {
    let item = NetworkItem { item: 1, location: 2, player: 3, flags: 2 };
    let from_packet = HintData::try_from(packet(Some(7), Some(item), Some(true))).unwrap();
    let from_flat = HintData::from(flat(2));
    assert_eq!(from_packet, from_flat);
    assert!(!from_flat.is_important);
}

#[test]
fn flat_hint_is_repackaged() {
    let hint = Hint {
        receiving_player: 11,
        finding_player: 12,
        location: 13,
        item: 14,
        found: false,
        entrance: "cave".to_string(),
        item_flags: 5,
    };
    let data: HintData = hint.into();
    assert_eq!(data.receiving, 11);
    assert_eq!(data.item, NetworkItem { item: 14, location: 13, player: 12, flags: 5 });
    assert!(!data.found);
    assert!(data.is_important);
}

#[test]
fn packet_without_item_fails() {
    let got = HintData::try_from(packet(Some(7), None, Some(true)));
    assert_eq!(got, Err(ProtocolError::MissingRequiredField(RequiredField::Item)));
    assert_eq!(got.unwrap_err().describe(), "missing required field in PrintJSON packet: item");
}

#[test]
fn packet_without_receiving_fails() {
    let item = NetworkItem { item: 1, location: 2, player: 3, flags: 1 };
    let got = HintData::try_from(packet(None, Some(item), Some(true)));
    assert_eq!(got, Err(ProtocolError::MissingRequiredField(RequiredField::Receiving)));
    assert_eq!(
        got.unwrap_err().describe(),
        "missing required field in PrintJSON packet: receiving"
    );
}

#[test]
fn packet_without_found_fails() {
    let item = NetworkItem { item: 1, location: 2, player: 3, flags: 1 };
    let got = HintData::try_from(packet(Some(7), Some(item), None));
    assert_eq!(got, Err(ProtocolError::MissingRequiredField(RequiredField::Found)));
    assert_eq!(got.unwrap_err().describe(), "missing required field in PrintJSON packet: found");
}

#[test]
fn first_missing_field_is_reported() {
    assert_eq!(
        HintData::try_from(packet(None, None, None)),
        Err(ProtocolError::MissingRequiredField(RequiredField::Item))
    );
    let item = NetworkItem { item: 0, location: 0, player: 0, flags: 0 };
    assert_eq!(
        HintData::try_from(packet(None, Some(item), None)),
        Err(ProtocolError::MissingRequiredField(RequiredField::Receiving))
    );
}

#[test]
fn explicit_zero_and_false_are_not_missing() {
    let item = NetworkItem { item: 0, location: 0, player: 0, flags: 0 };
    assert_eq!(
        HintData::try_from(packet(Some(0), Some(item), Some(false))),
        Ok(HintData { receiving: 0, item, found: false, is_important: false })
    );
}

#[test]
fn equal_hints_hash_alike() {
    let a = HintData::from(flat(1));
    let b = HintData::from(flat(1));
    let mut ha = DefaultHasher::new();
    let mut hb = DefaultHasher::new();
    a.hash(&mut ha);
    b.hash(&mut hb);
    assert_eq!(a, b);
    assert_eq!(ha.finish(), hb.finish());
    assert_ne!(a, HintData { found: false, ..a });
    assert_eq!(flat(1), flat(1));
    assert_ne!(flat(1), flat(3));
}
