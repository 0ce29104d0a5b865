//! Several pets may run at once; each announces where it rests, and the others
//! keep clear of those spots. Which announcements still count is decided here.

use vstd::prelude::*;

verus! {

/// An announcement older than this (milliseconds) is taken to be from a pet
/// that has quit or moved on.
pub const STALE_MS: u128 = 2000;

/// Who announced, and when.
#[derive(Clone, Copy, PartialEq, Eq, Debug, Structural)]
pub struct InstanceRecord {
    pub pid: u32,
    pub updated_ms: u128,
}

/// Whether an announcement is from another pet and fresh at `now_ms`.
pub open spec fn counts(r: InstanceRecord, self_pid: u32, now_ms: u128) -> bool {
    r.pid != self_pid && (if now_ms >= r.updated_ms { now_ms - r.updated_ms } else { 0 }) < STALE_MS
}

/// The positions, in increasing order, of the announcements that count: those
/// from other pets, made less than `STALE_MS` before `now_ms`.
pub fn live_other_instances(records: &Vec<InstanceRecord>, self_pid: u32, now_ms: u128) -> (idx: Vec<usize>)
    ensures
        forall|k: int| 0 <= k < idx.len() ==> #[trigger] idx[k] < records.len() && counts(records[idx[k] as int], self_pid, now_ms),
        forall|k: int, l: int| 0 <= k < l < idx.len() ==> #[trigger] idx[k] < #[trigger] idx[l],
        forall|i: int| 0 <= i < records.len() && #[trigger] counts(records[i], self_pid, now_ms) ==> idx@.contains(i as usize),
{
    let mut idx: Vec<usize> = Vec::new();
    let mut i: usize = 0;
    while i < records.len()
        invariant
            i <= records.len(),
            forall|k: int| 0 <= k < idx.len() ==> #[trigger] idx[k] < i && counts(records[idx[k] as int], self_pid, now_ms),
            forall|k: int, l: int| 0 <= k < l < idx.len() ==> #[trigger] idx[k] < #[trigger] idx[l],
            forall|j: int| 0 <= j < i && #[trigger] counts(records[j], self_pid, now_ms) ==> idx@.contains(j as usize),
        decreases records.len() - i,
    {
        let r = records[i];
        let ghost before = idx@;
        let age: u128 = if now_ms >= r.updated_ms { now_ms - r.updated_ms } else { 0 };
        if r.pid != self_pid && age < STALE_MS {
            idx.push(i);
            assert(idx[idx.len() - 1] == i);
        }
        assert forall|j: int| 0 <= j < i + 1 && #[trigger] counts(records[j], self_pid, now_ms) implies idx@.contains(j as usize) by {
            if j < i {
                let k = choose|k: int| 0 <= k < before.len() && before[k] == j as usize;
                assert(idx@[k] == before[k]);
            } else {
                assert(idx@[idx.len() - 1] == i);
            }
        }
        i = i + 1;
    }
    idx
}

} // verus!
