use itunes_com::wrappers::types::{join_persistent_id, join_size, split_persistent_id, PersistentId};

#[test]
fn persistent_id_zero_round_trips() {
    assert_eq!(split_persistent_id(0), (0, 0));
    assert_eq!(join_persistent_id(0, 0), 0);
}

#[test]
fn persistent_id_max_round_trips() {
    assert_eq!(split_persistent_id(u64::MAX), (-1, -1));
    assert_eq!(join_persistent_id(-1, -1), u64::MAX);
}

#[test]
fn persistent_id_high_half_is_the_most_significant_one() {
    let id: PersistentId = 0x1122_3344_5566_7788;
    assert_eq!(split_persistent_id(id), (0x1122_3344, 0x5566_7788));
    let bytes = id.to_be_bytes();
    let high = i32::from_be_bytes([bytes[0], bytes[1], bytes[2], bytes[3]]);
    let low = i32::from_be_bytes([bytes[4], bytes[5], bytes[6], bytes[7]]);
    assert_eq!(split_persistent_id(id), (high, low));
    assert_eq!(split_persistent_id(0x0000_0001_0000_0002), (1, 2));
    assert_eq!(join_persistent_id(1, 2), 0x0000_0001_0000_0002);
    assert_eq!(join_persistent_id(2, 1), 0x0000_0002_0000_0001);
}

#[test]
fn persistent_id_halves_with_the_sign_bit_set() {
    let id: PersistentId = 0x8000_0000_FFFF_FFFE;
    assert_eq!(split_persistent_id(id), (i32::MIN, -2));
    assert_eq!(join_persistent_id(i32::MIN, -2), id);
    assert_eq!(split_persistent_id(0x0000_0000_8000_0000), (0, i32::MIN));
    assert_eq!(split_persistent_id(0x7FFF_FFFF_0000_0000), (i32::MAX, 0));
}

#[test]
fn persistent_id_round_trips_over_many_values() {
    let mut id: PersistentId = 1;
    for _ in 0..200 {
        let (high, low) = split_persistent_id(id);
        assert_eq!(join_persistent_id(high, low), id);
        id = id.wrapping_mul(6364136223846793005).wrapping_add(1442695040888963407);
    }
}

#[test]
fn persistent_id_halves_round_trip() {
    for (high, low) in [(0, 0), (1, 0), (0, 1), (-1, 0), (0, -1), (i32::MIN, i32::MAX), (i32::MAX, i32::MIN), (123456, -654321)] {
        assert_eq!(split_persistent_id(join_persistent_id(high, low)), (high, low));
    }
}

#[test]
fn persistent_id_join_puts_the_high_half_first() {
    let high: i32 = 0x0102_0304;
    let low: i32 = -0x0102_0304;
    let mut bytes = [0u8; 8];
    bytes[..4].copy_from_slice(&high.to_be_bytes());
    bytes[4..].copy_from_slice(&low.to_be_bytes());
    assert_eq!(join_persistent_id(high, low), u64::from_be_bytes(bytes));
    assert_eq!(join_persistent_id(high, low), 0x0102_0304_FEFD_FCFC);
    assert_eq!(join_size(high, low), i64::from_be_bytes(bytes));
}

#[test]
fn size_joins_into_a_signed_number() {
    assert_eq!(join_size(0, 0), 0);
    assert_eq!(join_size(0, 5), 5);
    assert_eq!(join_size(0, 5_000_000), 5_000_000);
    assert_eq!(join_size(0, -1), 0xFFFF_FFFF);
    assert_eq!(join_size(1, 0), 0x1_0000_0000);
    assert_eq!(join_size(1, 2), 0x1_0000_0002);
    assert_eq!(join_size(-1, -1), -1);
    assert_eq!(join_size(i32::MIN, 0), i64::MIN);
    assert_eq!(join_size(i32::MAX, -1), i64::MAX);
}
