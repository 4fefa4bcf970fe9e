//! Tests for slot and access-set identities.

use bevy_sorting::AccessSet;
use bevy_sorting::Direction;
use bevy_sorting::Reads;
use bevy_sorting::SlotId;
use bevy_sorting::Writes;

#[test]
fn handles_name_their_access_sets() {
    let slot = SlotId { key: 11 };
    assert_eq!(
        Reads { slot }.access_set(),
        AccessSet {
            direction: Direction::Read,
            slot
        }
    );
    assert_eq!(
        Writes { slot }.access_set(),
        AccessSet {
            direction: Direction::Write,
            slot
        }
    );
}

#[test]
fn access_set_identity_is_direction_and_slot() {
    let a = SlotId { key: 1 };
    let b = SlotId { key: 2 };
    let read_a = AccessSet {
        direction: Direction::Read,
        slot: a,
    };
    assert_eq!(
        read_a,
        AccessSet {
            direction: Direction::Read,
            slot: a
        }
    );
    assert_ne!(
        read_a,
        AccessSet {
            direction: Direction::Write,
            slot: a
        }
    );
    assert_ne!(
        read_a,
        AccessSet {
            direction: Direction::Read,
            slot: b
        }
    );
}
