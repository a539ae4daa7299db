use multiworld_protocol::error::{MalformedReason, ProtocolError};
use multiworld_protocol::values::{
    network_version, ClientStatus, NetworkItem, Permission, PermissionsMap, SlotType, Timestamp,
};
use std::collections::hash_map::DefaultHasher;
use std::collections::HashSet;
use std::hash::{Hash, Hasher};

const OUT_OF_RANGE: ProtocolError = ProtocolError::MalformedMessage(MalformedReason::CodeOutOfRange);

fn hash_of<T: Hash>(value: &T) -> u64 {
    let mut hasher = DefaultHasher::new();
    value.hash(&mut hasher);
    hasher.finish()
}

#[test]
fn permission_codes_decode() {
    assert_eq!(Permission::from_code(0), Ok(Permission::Disabled));
    assert_eq!(Permission::from_code(1), Ok(Permission::Enabled));
    assert_eq!(Permission::from_code(2), Ok(Permission::Goal));
    assert_eq!(Permission::from_code(6), Ok(Permission::Auto));
    assert_eq!(Permission::from_code(7), Ok(Permission::AutoEnabled));
}

#[test]
fn permission_codes_encode() {
    assert_eq!(Permission::Disabled.code(), 0);
    assert_eq!(Permission::Enabled.code(), 1);
    assert_eq!(Permission::Goal.code(), 2);
    assert_eq!(Permission::Auto.code(), 6);
    assert_eq!(Permission::AutoEnabled.code(), 7);
    assert_eq!(Permission::AutoEnabled.code(), Permission::Auto.code() | Permission::Enabled.code());
}

#[test]
fn permission_rejects_every_other_code() {
    for code in 0..=u16::MAX {
        let decoded = Permission::from_code(code);
        if [0, 1, 2, 6, 7].contains(&code) {
            assert_eq!(decoded.map(|p| p.code()), Ok(code));
        } else {
            assert_eq!(decoded, Err(OUT_OF_RANGE));
        }
    }
}

#[test]
fn slot_type_codes() {
    assert_eq!(SlotType::from_code(0), Ok(SlotType::Spectator));
    assert_eq!(SlotType::from_code(1), Ok(SlotType::Player));
    assert_eq!(SlotType::from_code(2), Ok(SlotType::Group));
    assert_eq!(SlotType::Spectator.code(), 0);
    assert_eq!(SlotType::Player.code(), 1);
    assert_eq!(SlotType::Group.code(), 2);
    for code in 3..=u16::MAX {
        assert_eq!(SlotType::from_code(code), Err(OUT_OF_RANGE));
    }
}

#[test]
fn client_status_codes() {
    assert_eq!(ClientStatus::from_code(0), Ok(ClientStatus::ClientUnknown));
    assert_eq!(ClientStatus::from_code(5), Ok(ClientStatus::ClientConnected));
    assert_eq!(ClientStatus::from_code(10), Ok(ClientStatus::ClientReady));
    assert_eq!(ClientStatus::from_code(20), Ok(ClientStatus::ClientPlaying));
    assert_eq!(ClientStatus::from_code(30), Ok(ClientStatus::ClientGoal));
    assert_eq!(ClientStatus::ClientUnknown.code(), 0);
    assert_eq!(ClientStatus::ClientConnected.code(), 5);
    assert_eq!(ClientStatus::ClientReady.code(), 10);
    assert_eq!(ClientStatus::ClientPlaying.code(), 20);
    assert_eq!(ClientStatus::ClientGoal.code(), 30);
}

#[test]
fn client_status_rejects_every_other_code() {
    for code in 0..=u16::MAX {
        let decoded = ClientStatus::from_code(code);
        if [0, 5, 10, 20, 30].contains(&code) {
            assert_eq!(decoded.map(|s| s.code()), Ok(code));
        } else {
            assert_eq!(decoded, Err(OUT_OF_RANGE));
        }
    }
}

#[test]
fn out_of_range_is_reported_in_words() {
    assert_eq!(
        ClientStatus::from_code(4).unwrap_err().describe(),
        "malformed message: enumeration code out of range"
    );
}

#[test]
fn network_version_is_0_5_0() {
    let v = network_version();
    assert_eq!(v.major, 0);
    assert_eq!(v.minor, 5);
    assert_eq!(v.build, 0);
    assert_eq!(v.class, "Version");
}

#[test]
fn identical_items_are_equal_and_hash_alike() {
    let a = NetworkItem { item: 1, location: 2, player: 3, flags: 1 };
    let b = NetworkItem { item: 1, location: 2, player: 3, flags: 1 };
    assert_eq!(a, b);
    assert_eq!(hash_of(&a), hash_of(&b));
    let mut seen = HashSet::new();
    assert!(seen.insert(a));
    assert!(!seen.insert(b));
}

#[test]
fn items_differing_in_one_field_are_unequal() {
    let a = NetworkItem { item: 1, location: 2, player: 3, flags: 1 };
    assert_ne!(a, NetworkItem { item: 9, ..a });
    assert_ne!(a, NetworkItem { location: 9, ..a });
    assert_ne!(a, NetworkItem { player: 9, ..a });
    assert_ne!(a, NetworkItem { flags: 9, ..a });
}

#[test]
fn permissions_map_holds_three_values() {
    let map = PermissionsMap {
        release: Permission::Auto,
        collect: Permission::Goal,
        remaining: Permission::Disabled,
    };
    assert_eq!(map.release.code(), 6);
    assert_eq!(map.collect.code(), 2);
    assert_eq!(map.remaining.code(), 0);
}

#[test]
fn timestamp_keeps_the_bit_pattern() {
    let sent = 1_700_000_000.0_f32;
    let stamp = Timestamp { bits: sent.to_bits() };
    assert_eq!(f32::from_bits(stamp.bits), sent);
}

#[test]
fn client_status_converts_from_a_code_without_aborting() {
    assert_eq!(ClientStatus::try_from(0u16), Ok(ClientStatus::ClientUnknown));
    assert_eq!(ClientStatus::try_from(5u16), Ok(ClientStatus::ClientConnected));
    assert_eq!(ClientStatus::try_from(10u16), Ok(ClientStatus::ClientReady));
    assert_eq!(ClientStatus::try_from(20u16), Ok(ClientStatus::ClientPlaying));
    assert_eq!(ClientStatus::try_from(30u16), Ok(ClientStatus::ClientGoal));
    assert_eq!(ClientStatus::try_from(11u16), Err(OUT_OF_RANGE));
    assert_eq!(ClientStatus::try_from(u16::MAX), Err(OUT_OF_RANGE));
}
