//! The placement-service client capability.
//!
//! The placement service is the external cluster-metadata and scheduling
//! authority: it approves splits, aggregates heartbeats and decides
//! corrective actions. The worker consumes it through this trait; each
//! operation performs a blocking RPC and may fail with a transport
//! error. Nothing is promised of the responses — the service answers
//! from its own, possibly diverging, copy of the metadata — so every
//! conclusion the worker draws is proved for every response the trait
//! could return.

use vstd::prelude::*;

use crate::region::{Peer, Region};
use crate::command::ConfChangeType;

verus! {

/// The one failure kind the worker ever sees from the client: the RPC
/// did not complete. It is always non-fatal to the worker.
#[derive(Clone, Copy, PartialEq, Eq, Structural, Debug)]
pub enum PdError {
    Transport,
}

/// A successful split authorization: the identifier allotted for the new
/// region, and one new peer identifier per peer of the proposing region.
#[derive(Clone, Debug)]
pub struct AskSplitResponse {
    pub new_region_id: u64,
    pub new_peer_ids: Vec<u64>,
}

/// A requested membership change: add or remove `peer`.
#[derive(Clone, Copy, PartialEq, Eq, Structural, Debug)]
pub struct ChangePeerDirective {
    pub change_type: ConfChangeType,
    pub peer: Peer,
}

/// A requested leadership transfer to `peer`.
#[derive(Clone, Copy, PartialEq, Eq, Structural, Debug)]
pub struct TransferLeaderDirective {
    pub peer: Peer,
}

/// The answer to a region heartbeat: at most one corrective action is
/// meant to be requested; a well-behaved service never fills both
/// fields, and the worker breaks the tie in favour of the membership
/// change if it ever does.
#[derive(Clone, Copy, PartialEq, Eq, Structural, Debug)]
pub struct RegionHeartbeatResponse {
    pub change_peer: Option<ChangePeerDirective>,
    pub transfer_leader: Option<TransferLeaderDirective>,
}

/// Liveness statistics for one peer reported down.
#[derive(Clone, Copy, PartialEq, Eq, Structural, Debug)]
pub struct PeerStats {
    pub peer: Peer,
    pub down_seconds: u64,
}

/// Store-level statistics for the store heartbeat.
#[derive(Clone, Copy, PartialEq, Eq, Structural, Debug)]
pub struct StoreStats {
    pub store_id: u64,
    pub capacity: u64,
    pub available: u64,
    pub region_count: u64,
}

/// The placement-service operations the worker performs. The handle is a
/// read-only capability, safe to share across workers; implementations
/// block on the RPC and never retry internally.
pub trait PdClient: Sized {
    /// Asks the service to authorize splitting `region`.
    fn ask_split(&self, region: Region) -> Result<AskSplitResponse, PdError>;

    /// Reports one region's state; the answer may request a corrective
    /// action.
    fn region_heartbeat(
        &self,
        region: Region,
        peer: Peer,
        down_peers: Vec<PeerStats>,
        pending_peers: Vec<Peer>,
    ) -> Result<RegionHeartbeatResponse, PdError>;

    /// Reports store-level statistics.
    fn store_heartbeat(&self, stats: StoreStats) -> Result<(), PdError>;

    /// Tells the service that a split produced `left` and `right`. Best
    /// effort, informational only.
    fn report_split(&self, left: Region, right: Region) -> Result<(), PdError>;

    /// Fetches the service's current copy of the region with this
    /// identifier, or `None` while a split or merge has not yet
    /// propagated to the service.
    fn get_region_by_id(&self, region_id: u64) -> Result<Option<Region>, PdError>;
}

} // verus!
