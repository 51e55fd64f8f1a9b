//! Fixed byte-string keys of the singleton records in the metadata and
//! messaging columns. The byte values are part of the on-disk format.

use vstd::prelude::*;

verus! {

/// The bytes of `CURRENT_SYNCING_TIPS`.
pub open spec fn spec_current_syncing_tips() -> Seq<u8> {
    seq![
        67u8, 85u8, 82u8, 82u8, 69u8, 78u8, 84u8, 95u8, 83u8, 89u8, 78u8, 67u8, 73u8, 78u8, 71u8,
        95u8, 84u8, 73u8, 80u8, 83u8,
    ]
}

/// The key `CURRENT_SYNCING_TIPS` under which the tip set is stored.
pub fn current_syncing_tips() -> (r: Vec<u8>)
    ensures
        r@ == spec_current_syncing_tips(),
{
    let mut r: Vec<u8> = Vec::new();
    r.push(67u8);  // C
    r.push(85u8);  // U
    r.push(82u8);  // R
    r.push(82u8);  // R
    r.push(69u8);  // E
    r.push(78u8);  // N
    r.push(84u8);  // T
    r.push(95u8);  // _
    r.push(83u8);  // S
    r.push(89u8);  // Y
    r.push(78u8);  // N
    r.push(67u8);  // C
    r.push(73u8);  // I
    r.push(78u8);  // N
    r.push(71u8);  // G
    r.push(95u8);  // _
    r.push(84u8);  // T
    r.push(73u8);  // I
    r.push(80u8);  // P
    r.push(83u8);  // S
    assert(r@ =~= spec_current_syncing_tips());
    r
}

/// The bytes of `LAST_PROVED_BLOCK`.
pub open spec fn spec_last_proved_block() -> Seq<u8> {
    seq![
        76u8, 65u8, 83u8, 84u8, 95u8, 80u8, 82u8, 79u8, 86u8, 69u8, 68u8, 95u8, 66u8, 76u8, 79u8,
        67u8, 75u8,
    ]
}

/// The key `LAST_PROVED_BLOCK` under which the proved-block pointer is stored.
pub fn last_proved_block() -> (r: Vec<u8>)
    ensures
        r@ == spec_last_proved_block(),
{
    let mut r: Vec<u8> = Vec::new();
    r.push(76u8);  // L
    r.push(65u8);  // A
    r.push(83u8);  // S
    r.push(84u8);  // T
    r.push(95u8);  // _
    r.push(80u8);  // P
    r.push(82u8);  // R
    r.push(79u8);  // O
    r.push(86u8);  // V
    r.push(69u8);  // E
    r.push(68u8);  // D
    r.push(95u8);  // _
    r.push(66u8);  // B
    r.push(76u8);  // L
    r.push(79u8);  // O
    r.push(67u8);  // C
    r.push(75u8);  // K
    assert(r@ =~= spec_last_proved_block());
    r
}

/// The bytes of `LAST_SYNCED_L1_EVENT_BLOCK`.
pub open spec fn spec_last_synced_l1_event_block() -> Seq<u8> {
    seq![
        76u8, 65u8, 83u8, 84u8, 95u8, 83u8, 89u8, 78u8, 67u8, 69u8, 68u8, 95u8, 76u8, 49u8, 95u8,
        69u8, 86u8, 69u8, 78u8, 84u8, 95u8, 66u8, 76u8, 79u8, 67u8, 75u8,
    ]
}

/// The key `LAST_SYNCED_L1_EVENT_BLOCK` under which the L1 event cursor is
/// stored.
pub fn last_synced_l1_event_block() -> (r: Vec<u8>)
    ensures
        r@ == spec_last_synced_l1_event_block(),
{
    let mut r: Vec<u8> = Vec::new();
    r.push(76u8);  // L
    r.push(65u8);  // A
    r.push(83u8);  // S
    r.push(84u8);  // T
    r.push(95u8);  // _
    r.push(83u8);  // S
    r.push(89u8);  // Y
    r.push(78u8);  // N
    r.push(67u8);  // C
    r.push(69u8);  // E
    r.push(68u8);  // D
    r.push(95u8);  // _
    r.push(76u8);  // L
    r.push(49u8);  // 1
    r.push(95u8);  // _
    r.push(69u8);  // E
    r.push(86u8);  // V
    r.push(69u8);  // E
    r.push(78u8);  // N
    r.push(84u8);  // T
    r.push(95u8);  // _
    r.push(66u8);  // B
    r.push(76u8);  // L
    r.push(79u8);  // O
    r.push(67u8);  // C
    r.push(75u8);  // K
    assert(r@ =~= spec_last_synced_l1_event_block());
    r
}

} // verus!
