//! The durable checkpoint: a single stored value that names the last update
//! known to be fully applied, and the order in which checkpoints are compared.

use vstd::prelude::*;

verus! {

/// The fixed key of the only checkpoint row.
pub const CHECKPOINT_ROW_ID: i32 = 1;

/// Two to the power 64, the number of distinct update ids.
pub open spec fn id_space() -> int {
    0x1_0000_0000_0000_0000
}

/// The signed 64-bit column value under which an update id is stored: ids up
/// to `i64::MAX` as themselves, larger ones as the negative number with the
/// same bit pattern.
pub open spec fn stored_form(id: u64) -> int {
    if id <= i64::MAX {
        id as int
    } else {
        id - id_space()
    }
}

/// The update id that a stored column value stands for.
pub open spec fn loaded_form(raw: i64) -> int {
    if raw >= 0 {
        raw as int
    } else {
        raw + id_space()
    }
}

/// `a` is not a newer checkpoint than `b`. No checkpoint at all is older than
/// every checkpoint.
pub open spec fn not_newer(a: Option<u64>, b: Option<u64>) -> bool {
    match (a, b) {
        (None, _) => true,
        (Some(_), None) => false,
        (Some(x), Some(y)) => x <= y,
    }
}

/// The position reached when a batch with high-water id `high_water` has been
/// applied on top of `last`: the position never moves backwards.
pub open spec fn advanced(last: Option<u64>, high_water: u64) -> Option<u64> {
    match last {
        Some(prior) if prior > high_water => Some(prior),
        _ => Some(high_water),
    }
}

/// Converts an update id to the signed value written to the store.
pub fn encode_update_id(id: u64) -> (raw: i64)
    ensures
        raw == stored_form(id),
{
    if id <= 0x7fff_ffff_ffff_ffff {
        id as i64
    } else {
        let low: u64 = id - 0x8000_0000_0000_0000;
        (low as i64) + i64::MIN
    }
}

/// Converts a signed value read from the store back to the update id.
pub fn decode_update_id(raw: i64) -> (id: u64)
    ensures
        id == loaded_form(raw),
{
    if raw >= 0 {
        raw as u64
    } else {
        let low: i64 = raw - i64::MIN;
        (low as u64) + 0x8000_0000_0000_0000
    }
}

/// Interprets the result of reading the checkpoint row: no row means that no
/// checkpoint was ever written.
pub fn checkpoint_from_row(row: Option<i64>) -> (loaded: Option<u64>)
    ensures
        row is None <==> loaded is None,
        row matches Some(raw) ==> loaded == Some(loaded_form(raw) as u64),
{
    match row {
        Some(raw) => Some(decode_update_id(raw)),
        None => None,
    }
}

/// Moves a position forward over a batch that was applied.
pub fn advance(last: Option<u64>, high_water: u64) -> (next: Option<u64>)
    ensures
        next == advanced(last, high_water),
{
    match last {
        Some(prior) => if prior > high_water {
            Some(prior)
        } else {
            Some(high_water)
        },
        None => Some(high_water),
    }
}

/// Whether checkpoint `a` is not newer than checkpoint `b`.
pub fn is_not_newer(a: Option<u64>, b: Option<u64>) -> (r: bool)
    ensures
        r == not_newer(a, b),
{
    match a {
        None => true,
        Some(x) => match b {
            None => false,
            Some(y) => x <= y,
        },
    }
}

/// Every update id survives being written to the store and read back.
pub proof fn lemma_stored_id_round_trip(id: u64)
    ensures
        i64::MIN <= stored_form(id) <= i64::MAX,
        loaded_form(stored_form(id) as i64) == id,
{
}

/// Every stored value survives being read and written back, so the stored
/// form is a bijection between update ids and column values.
pub proof fn lemma_loaded_value_round_trip(raw: i64)
    ensures
        0 <= loaded_form(raw) <= u64::MAX,
        stored_form(loaded_form(raw) as u64) == raw,
{
}

/// Applying a batch never moves the position backwards, and the new position
/// covers the batch.
pub proof fn lemma_advanced_is_monotonic(last: Option<u64>, high_water: u64)
    ensures
        not_newer(last, advanced(last, high_water)),
        not_newer(Some(high_water), advanced(last, high_water)),
        advanced(last, high_water) == Some(high_water) || advanced(last, high_water) == last,
{
}

/// The order on checkpoints is reflexive and transitive.
pub proof fn lemma_not_newer_is_preorder(a: Option<u64>, b: Option<u64>, c: Option<u64>)
    ensures
        not_newer(a, a),
        not_newer(a, b) && not_newer(b, c) ==> not_newer(a, c),
        not_newer(a, b) || not_newer(b, a),
        not_newer(a, b) && not_newer(b, a) ==> a == b,
{
}

} // verus!
