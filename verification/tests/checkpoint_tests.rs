use kong_admin::checkpoint::advance;
use kong_admin::checkpoint::checkpoint_from_row;
use kong_admin::checkpoint::decode_update_id;
use kong_admin::checkpoint::encode_update_id;
use kong_admin::checkpoint::is_not_newer;
use kong_admin::checkpoint::CHECKPOINT_ROW_ID;

#[test]
fn the_checkpoint_row_has_the_fixed_key() {
    assert_eq!(CHECKPOINT_ROW_ID, 1);
}

#[test]
fn small_ids_are_stored_as_themselves() {
    assert_eq!(encode_update_id(0), 0);
    assert_eq!(encode_update_id(1000), 1000);
    assert_eq!(encode_update_id(i64::MAX as u64), i64::MAX);
}

#[test]
fn large_ids_are_stored_as_negative_values() {
    assert_eq!(encode_update_id(1u64 << 63), i64::MIN);
    assert_eq!(encode_update_id((1u64 << 63) + 5), i64::MIN + 5);
    assert_eq!(encode_update_id(u64::MAX), -1);
}

#[test]
fn stored_values_are_read_back() {
    assert_eq!(decode_update_id(0), 0);
    assert_eq!(decode_update_id(1000), 1000);
    assert_eq!(decode_update_id(i64::MAX), i64::MAX as u64);
    assert_eq!(decode_update_id(i64::MIN), 1u64 << 63);
    assert_eq!(decode_update_id(-1), u64::MAX);
}

#[test]
fn every_id_survives_the_round_trip() {
    let ids = [0u64, 1, 99, 1000, (1 << 63) - 1, 1 << 63, (1 << 63) + 1, u64::MAX - 1, u64::MAX];
    for id in ids {
        assert_eq!(decode_update_id(encode_update_id(id)), id);
    }
    let raws = [i64::MIN, i64::MIN + 1, -2, -1, 0, 1, i64::MAX - 1, i64::MAX];
    for raw in raws {
        assert_eq!(encode_update_id(decode_update_id(raw)), raw);
    }
}

#[test]
fn no_row_means_no_checkpoint() {
    assert_eq!(checkpoint_from_row(None), None);
    assert_eq!(checkpoint_from_row(Some(0)), Some(0));
    assert_eq!(checkpoint_from_row(Some(1000)), Some(1000));
    assert_eq!(checkpoint_from_row(Some(-1)), Some(u64::MAX));
}

#[test]
fn the_position_never_moves_backwards() {
    assert_eq!(advance(None, 100), Some(100));
    assert_eq!(advance(None, 0), Some(0));
    assert_eq!(advance(Some(100), 200), Some(200));
    assert_eq!(advance(Some(100), 100), Some(100));
    assert_eq!(advance(Some(100), 50), Some(100));
}

#[test]
fn no_checkpoint_is_older_than_any() {
    assert!(is_not_newer(None, None));
    assert!(is_not_newer(None, Some(0)));
    assert!(!is_not_newer(Some(0), None));
    assert!(is_not_newer(Some(3), Some(3)));
    assert!(is_not_newer(Some(3), Some(4)));
    assert!(!is_not_newer(Some(4), Some(3)));
}
