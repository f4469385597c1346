//! Outbound messages from the coordination worker to the consensus loop.
//!
//! A placement-service response may imply one follow-up action. The
//! worker expresses it either as a structured administrative request
//! (change membership, split, transfer leadership) wrapped with the
//! region's identity, or as a raw tombstone message telling one peer to
//! destroy its local replica.

use vstd::prelude::*;

use crate::region::{Peer, Region, RegionEpoch};

verus! {

/// The direction of a membership change requested by the placement service.
#[derive(Clone, Copy, PartialEq, Eq, Structural, Debug)]
pub enum ConfChangeType {
    AddNode,
    RemoveNode,
}

/// A structured administrative request, one per corrective action the
/// placement service can ask for.
#[derive(Clone, Debug)]
pub enum AdminRequest {
    ChangePeer { change_type: ConfChangeType, peer: Peer },
    Split { split_key: Vec<u8>, new_region_id: u64, new_peer_ids: Vec<u64> },
    TransferLeader { peer: Peer },
}

/// The envelope of an administrative request: which region it addresses,
/// under which epoch, issued by which peer, and a unique request
/// identifier so duplicated deliveries can be told apart.
#[derive(Clone, Debug)]
pub struct RequestHeader {
    pub region_id: u64,
    pub region_epoch: RegionEpoch,
    pub peer: Peer,
    pub uuid: Vec<u8>,
}

/// A complete administrative command for the consensus loop.
#[derive(Clone, Debug)]
pub struct RaftCmdRequest {
    pub header: RequestHeader,
    pub admin_request: AdminRequest,
}

/// A raw protocol message directed at one peer. With `is_tombstone` set
/// it instructs the addressed peer to destroy its local replica; the
/// epoch carried alongside lets the destroying node check that the
/// instruction is not itself stale.
#[derive(Clone, Debug)]
pub struct RaftMessage {
    pub region_id: u64,
    pub from_peer: Peer,
    pub to_peer: Peer,
    pub region_epoch: RegionEpoch,
    pub is_tombstone: bool,
}

/// One entry of the consensus loop's inbound queue.
#[derive(Clone, Debug)]
pub enum Msg {
    RaftCmd { request: RaftCmdRequest },
    RaftMessage { message: RaftMessage },
}

/// Builds the administrative request for a membership change.
pub fn new_change_peer_request(change_type: ConfChangeType, peer: Peer) -> (r: AdminRequest)
    ensures
        r == (AdminRequest::ChangePeer { change_type, peer }),
{
    AdminRequest::ChangePeer { change_type, peer }
}

/// Builds the administrative request for a region split at `split_key`,
/// using the region identifier and peer identifiers that the placement
/// service allotted for the new region.
pub fn new_split_region_request(
    split_key: Vec<u8>,
    new_region_id: u64,
    new_peer_ids: Vec<u64>,
) -> (r: AdminRequest)
    ensures
        r == (AdminRequest::Split { split_key, new_region_id, new_peer_ids }),
{
    AdminRequest::Split { split_key, new_region_id, new_peer_ids }
}

/// Builds the administrative request for a leadership transfer to `peer`.
pub fn new_transfer_leader_request(peer: Peer) -> (r: AdminRequest)
    ensures
        r == (AdminRequest::TransferLeader { peer }),
{
    AdminRequest::TransferLeader { peer }
}

/// The command envelope the worker wraps around an administrative
/// request: addressed to `region` under its current epoch, issued by
/// `peer`, carrying `uuid` as the unique request identifier.
pub open spec fn admin_cmd_msg(region: Region, peer: Peer, uuid: Vec<u8>, request: AdminRequest) -> Msg {
    Msg::RaftCmd {
        request: RaftCmdRequest {
            header: RequestHeader {
                region_id: region.id,
                region_epoch: region.region_epoch,
                peer: peer,
                uuid: uuid,
            },
            admin_request: request,
        },
    }
}

/// The tombstone message that destroys `peer`'s replica of
/// `local_region`, carrying the placement service's fresher epoch from
/// `pd_region`.
pub open spec fn tombstone_message(local_region: Region, peer: Peer, pd_region: Region) -> RaftMessage {
    RaftMessage {
        region_id: local_region.id,
        from_peer: peer,
        to_peer: peer,
        region_epoch: pd_region.region_epoch,
        is_tombstone: true,
    }
}

} // verus!
