//! Region metadata: peers, epochs, and the staleness order on epochs.
//!
//! A region is a contiguous key-range shard replicated across a set of
//! peers. Its epoch carries two monotonically increasing counters:
//! `version` is bumped on split or merge, `conf_ver` on membership
//! change. The placement service holds the authoritative copy of this
//! metadata; a node's own copy is only its last known snapshot, so every
//! decision that mixes the two must first compare epochs.

use vstd::prelude::*;

verus! {

/// A region epoch: `{version, conf_ver}`, used to detect stale metadata.
#[derive(Clone, Copy, PartialEq, Eq, Structural, Debug)]
pub struct RegionEpoch {
    pub version: u64,
    pub conf_ver: u64,
}

/// One replica of a region, hosted on one store.
#[derive(Clone, Copy, PartialEq, Eq, Structural, Debug)]
pub struct Peer {
    pub id: u64,
    pub store_id: u64,
}

/// A node's snapshot of one region's metadata.
#[derive(Clone, Debug)]
pub struct Region {
    pub id: u64,
    pub start_key: Vec<u8>,
    pub end_key: Vec<u8>,
    pub region_epoch: RegionEpoch,
    pub peers: Vec<Peer>,
}

/// `epoch` lags `check_epoch`: at least one of `check_epoch`'s counters
/// strictly exceeds the corresponding counter of `epoch`. The relation is
/// asymmetric; callers that care about both directions must check both.
pub open spec fn epoch_stale_spec(epoch: RegionEpoch, check_epoch: RegionEpoch) -> bool {
    epoch.version < check_epoch.version || epoch.conf_ver < check_epoch.conf_ver
}

/// Decides whether `epoch` is stale relative to `check_epoch`.
pub fn is_epoch_stale(epoch: RegionEpoch, check_epoch: RegionEpoch) -> (r: bool)
    ensures
        r == epoch_stale_spec(epoch, check_epoch),
{
    epoch.version < check_epoch.version || epoch.conf_ver < check_epoch.conf_ver
}

/// Decides whether `peer` occurs in `region`'s peer set.
pub fn region_contains_peer(region: &Region, peer: &Peer) -> (r: bool)
    ensures
        r == region.peers@.contains(*peer),
{
    let mut i: usize = 0;
    while i < region.peers.len()
        invariant
            i <= region.peers@.len(),
            forall|j: int| 0 <= j < i ==> region.peers@[j] != *peer,
        decreases region.peers@.len() - i,
    {
        if region.peers[i] == *peer {
            return true;
        }
        i = i + 1;
    }
    false
}

} // verus!
