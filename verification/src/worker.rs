//! The coordination worker: a sequential executor of placement-service
//! tasks.
//!
//! Tasks are enqueued by the consensus layer and drained one at a time,
//! in arrival order. For each task the worker performs one blocking call
//! against the placement client, interprets the response, and derives
//! zero or one outbound command, delivered through a non-blocking, lossy
//! send. Call failures are never fatal: the task is discarded and the
//! worker moves on, because every task here is periodic and
//! self-correcting. Every call also advances advisory counters, split by
//! call kind and outcome; they never gate control flow.

use vstd::prelude::*;

use crate::command::{
    admin_cmd_msg, new_change_peer_request, new_split_region_request, new_transfer_leader_request,
    tombstone_message, AdminRequest, Msg, RaftCmdRequest, RaftMessage, RequestHeader,
};
use crate::pd::{
    AskSplitResponse, ChangePeerDirective, PdClient, PdError, PeerStats, RegionHeartbeatResponse,
    StoreStats, TransferLeaderDirective,
};
use crate::region::{epoch_stale_spec, is_epoch_stale, region_contains_peer, Peer, Region};
use crate::transport::{sink_send_attempt, BoundedSink};

verus! {

/// One unit of coordination work, described by value. A task is created
/// by the consensus layer and owned by the worker until fully processed.
#[derive(Clone, Debug)]
pub enum Task {
    AskSplit { region: Region, split_key: Vec<u8>, peer: Peer },
    Heartbeat { region: Region, peer: Peer, down_peers: Vec<PeerStats>, pending_peers: Vec<Peer> },
    StoreHeartbeat { stats: StoreStats },
    ReportSplit { left: Region, right: Region },
    ValidatePeer { region: Region, peer: Peer },
}

/// Advisory request counters, split by call kind and outcome.
#[derive(Clone, Copy, PartialEq, Eq, Structural, Debug)]
pub struct Counters {
    pub ask_split_all: u64,
    pub ask_split_success: u64,
    pub heartbeat_all: u64,
    pub heartbeat_success: u64,
    pub report_split_all: u64,
    pub report_split_success: u64,
    pub get_region_all: u64,
    pub get_region_success: u64,
    pub heartbeat_change_peer: u64,
    pub heartbeat_transfer_leader: u64,
    pub validate_epoch_error: u64,
    pub validate_peer_stale: u64,
    pub validate_peer_valid: u64,
}

/// All counters at zero.
pub open spec fn counters_zero() -> Counters {
    Counters {
        ask_split_all: 0,
        ask_split_success: 0,
        heartbeat_all: 0,
        heartbeat_success: 0,
        report_split_all: 0,
        report_split_success: 0,
        get_region_all: 0,
        get_region_success: 0,
        heartbeat_change_peer: 0,
        heartbeat_transfer_leader: 0,
        validate_epoch_error: 0,
        validate_peer_stale: 0,
        validate_peer_valid: 0,
    }
}

/// A counter advance that tops out instead of wrapping: the counters are
/// advisory, so saturation is preferable to a panic or a wrap.
pub open spec fn sat_inc(c: u64) -> u64 {
    if c == u64::MAX {
        c
    } else {
        (c + 1) as u64
    }
}

/// Advances one counter, saturating at the largest value.
fn next_count(c: u64) -> (r: u64)
    ensures
        r == sat_inc(c),
{
    if c == u64::MAX {
        c
    } else {
        c + 1
    }
}

/// The counters after one split-authorization call.
pub open spec fn counters_ask_split(c: Counters, success: bool) -> Counters {
    let c1 = Counters { ask_split_all: sat_inc(c.ask_split_all), ..c };
    if success {
        Counters { ask_split_success: sat_inc(c1.ask_split_success), ..c1 }
    } else {
        c1
    }
}

/// The counters after one region-heartbeat call that the service answered.
pub open spec fn counters_heartbeat_ok(c: Counters, resp: RegionHeartbeatResponse) -> Counters {
    let c1 = Counters { heartbeat_all: sat_inc(c.heartbeat_all), ..c };
    let c2 = Counters { heartbeat_success: sat_inc(c1.heartbeat_success), ..c1 };
    if resp.change_peer is Some {
        Counters { heartbeat_change_peer: sat_inc(c2.heartbeat_change_peer), ..c2 }
    } else if resp.transfer_leader is Some {
        Counters { heartbeat_transfer_leader: sat_inc(c2.heartbeat_transfer_leader), ..c2 }
    } else {
        c2
    }
}

/// The counters after one region-heartbeat call that failed.
pub open spec fn counters_heartbeat_failed(c: Counters) -> Counters {
    Counters { heartbeat_all: sat_inc(c.heartbeat_all), ..c }
}

/// The counters after one split report.
pub open spec fn counters_report_split(c: Counters, success: bool) -> Counters {
    let c1 = Counters { report_split_all: sat_inc(c.report_split_all), ..c };
    if success {
        Counters { report_split_success: sat_inc(c1.report_split_success), ..c1 }
    } else {
        c1
    }
}

/// The counters after one region lookup. The lookup counts as a success
/// only when it returned a region to act on.
pub open spec fn counters_get_region(c: Counters, success: bool) -> Counters {
    let c1 = Counters { get_region_all: sat_inc(c.get_region_all), ..c };
    if success {
        Counters { get_region_success: sat_inc(c1.get_region_success), ..c1 }
    } else {
        c1
    }
}

/// The counters after a peer validation whose lookup returned
/// `pd_region`: one validation-outcome counter advances, matching the
/// branch the worker took.
pub open spec fn counters_validate(c: Counters, local_region: Region, peer: Peer, pd_region: Region) -> Counters {
    let c1 = counters_get_region(c, true);
    if epoch_stale_spec(pd_region.region_epoch, local_region.region_epoch) {
        Counters { validate_epoch_error: sat_inc(c1.validate_epoch_error), ..c1 }
    } else if !pd_region.peers@.contains(peer) {
        Counters { validate_peer_stale: sat_inc(c1.validate_peer_stale), ..c1 }
    } else {
        Counters { validate_peer_valid: sat_inc(c1.validate_peer_valid), ..c1 }
    }
}

/// The administrative request a heartbeat response calls for. At most
/// one corrective action is applied per cycle; if the response carries
/// both a membership change and a leadership transfer, the membership
/// change wins and the transfer is ignored for this cycle.
pub open spec fn heartbeat_action(resp: RegionHeartbeatResponse) -> Option<AdminRequest> {
    match resp.change_peer {
        Some(cp) => Some(AdminRequest::ChangePeer { change_type: cp.change_type, peer: cp.peer }),
        None => match resp.transfer_leader {
            Some(tl) => Some(AdminRequest::TransferLeader { peer: tl.peer }),
            None => None,
        },
    }
}

/// The message a peer validation sends when the placement service
/// returned `pd_region`. A stale remote epoch is an anomaly the node
/// cannot resolve unilaterally, so it short-circuits every further
/// check; only a fresh remote region that no longer lists the peer
/// yields a tombstone, carrying the remote epoch.
pub open spec fn validate_peer_action(local_region: Region, peer: Peer, pd_region: Region) -> Option<RaftMessage> {
    if epoch_stale_spec(pd_region.region_epoch, local_region.region_epoch) {
        None
    } else if !pd_region.peers@.contains(peer) {
        Some(tombstone_message(local_region, peer, pd_region))
    } else {
        None
    }
}

/// One administrative command for `request` went out: under some fresh
/// 16-byte request identifier, the wrapped command was offered to the
/// queue and accepted exactly when the queue could take it.
pub open spec fn admin_request_sent(pre: BoundedSink, post: BoundedSink, region: Region, peer: Peer, request: AdminRequest) -> bool {
    exists|rid: Vec<u8>|
        rid@.len() == 16 && #[trigger] sink_send_attempt(pre, post, admin_cmd_msg(region, peer, rid, request))
}

/// What one split-authorization task does to the worker, given the
/// client's answer `outcome`.
pub open spec fn ask_split_post<T: PdClient>(
    pre: Runner<T>,
    post: Runner<T>,
    region: Region,
    split_key: Vec<u8>,
    peer: Peer,
    outcome: Result<AskSplitResponse, PdError>,
) -> bool {
    match outcome {
        Ok(resp) => {
            &&& post.counters == counters_ask_split(pre.counters, true)
            &&& admin_request_sent(
                pre.ch,
                post.ch,
                region,
                peer,
                (AdminRequest::Split {
                    split_key: split_key,
                    new_region_id: resp.new_region_id,
                    new_peer_ids: resp.new_peer_ids,
                }),
            )
        },
        Err(_) => {
            &&& post.counters == counters_ask_split(pre.counters, false)
            &&& post.ch == pre.ch
        },
    }
}

/// What one heartbeat task does to the worker, given the client's answer
/// `outcome`.
pub open spec fn heartbeat_post<T: PdClient>(
    pre: Runner<T>,
    post: Runner<T>,
    region: Region,
    peer: Peer,
    outcome: Result<RegionHeartbeatResponse, PdError>,
) -> bool {
    match outcome {
        Ok(resp) => {
            &&& post.counters == counters_heartbeat_ok(pre.counters, resp)
            &&& match heartbeat_action(resp) {
                Some(req) => admin_request_sent(pre.ch, post.ch, region, peer, req),
                None => post.ch == pre.ch,
            }
        },
        Err(_) => {
            &&& post.counters == counters_heartbeat_failed(pre.counters)
            &&& post.ch == pre.ch
        },
    }
}

/// What one split report does to the worker, given the client's answer.
pub open spec fn report_split_post<T: PdClient>(
    pre: Runner<T>,
    post: Runner<T>,
    outcome: Result<(), PdError>,
) -> bool {
    &&& post.counters == counters_report_split(pre.counters, outcome is Ok)
    &&& post.ch == pre.ch
}

/// What one peer validation does to the worker, given the client's
/// answer `outcome`.
pub open spec fn validate_peer_post<T: PdClient>(
    pre: Runner<T>,
    post: Runner<T>,
    local_region: Region,
    peer: Peer,
    outcome: Result<Option<Region>, PdError>,
) -> bool {
    match outcome {
        Ok(found) => match found {
            Some(pd_region) => {
                &&& post.counters == counters_validate(pre.counters, local_region, peer, pd_region)
                &&& match validate_peer_action(local_region, peer, pd_region) {
                    Some(m) => sink_send_attempt(pre.ch, post.ch, (Msg::RaftMessage { message: m })),
                    None => post.ch == pre.ch,
                }
            },
            None => {
                &&& post.counters == counters_get_region(pre.counters, false)
                &&& post.ch == pre.ch
            },
        },
        Err(_) => {
            &&& post.counters == counters_get_region(pre.counters, false)
            &&& post.ch == pre.ch
        },
    }
}

/// What processing one task does to the worker: for the task kinds whose
/// outcome depends on the placement service's answer, some answer
/// explains the worker's new state.
pub open spec fn run_post<T: PdClient>(pre: Runner<T>, post: Runner<T>, task: Task) -> bool {
    &&& post.pd_client == pre.pd_client
    &&& match task {
        Task::AskSplit { region, split_key, peer } => exists|o: Result<AskSplitResponse, PdError>|
            #[trigger] ask_split_post(pre, post, region, split_key, peer, o),
        Task::Heartbeat { region, peer, .. } => exists|
            o: Result<RegionHeartbeatResponse, PdError>,
        | #[trigger] heartbeat_post(pre, post, region, peer, o),
        Task::StoreHeartbeat { .. } => post.counters == pre.counters && post.ch == pre.ch,
        Task::ReportSplit { .. } => exists|o: Result<(), PdError>|
            #[trigger] report_split_post(pre, post, o),
        Task::ValidatePeer { region, peer } => exists|o: Result<Option<Region>, PdError>|
            #[trigger] validate_peer_post(pre, post, region, peer, o),
    }
}

/// Generates the unique identifier for one outbound request.
///
/// Relies on `uuid::Uuid::new_v4`: a freshly generated random UUID is 16
/// bytes, with the high nibble of byte 6 holding the version number 4.
#[verifier::external_body]
fn new_request_id() -> (r: Vec<u8>)
    ensures
        r@.len() == 16,
        r@[6] >> 4u8 == 4u8,
{
    uuid::Uuid::new_v4().as_bytes().to_vec()
}

/// The sequential task executor, bound to one placement-client handle
/// and the outbound queue into the consensus loop.
pub struct Runner<T: PdClient> {
    pub pd_client: T,
    pub ch: BoundedSink,
    pub counters: Counters,
}

impl<T: PdClient> Runner<T> {
    /// A worker with fresh counters, answering through `ch`.
    pub fn new(pd_client: T, ch: BoundedSink) -> (r: Runner<T>)
        ensures
            r.pd_client == pd_client,
            r.ch == ch,
            r.counters == counters_zero(),
    {
        Runner { pd_client, ch, counters: counters_zero_exec() }
    }

    /// Wraps `request` in a command envelope under a fresh request
    /// identifier and offers it to the outbound queue. A failed send is
    /// deliberately dropped: the command will be re-derived on a later
    /// cycle, and blocking here would stall every other pending task.
    fn send_admin_request(&mut self, region: Region, peer: Peer, request: AdminRequest)
        ensures
            final(self).pd_client == old(self).pd_client,
            final(self).counters == old(self).counters,
            admin_request_sent(old(self).ch, final(self).ch, region, peer, request),
    {
        let rid = new_request_id();
        let ghost rid_g = rid;
        let ghost request_g = request;
        let msg = Msg::RaftCmd {
            request: RaftCmdRequest {
                header: RequestHeader {
                    region_id: region.id,
                    region_epoch: region.region_epoch,
                    peer: peer,
                    uuid: rid,
                },
                admin_request: request,
            },
        };
        let ghost msg_g = msg;
        let _accepted: bool = self.ch.try_send(msg);
        proof {
            assert(msg_g == admin_cmd_msg(region, peer, rid_g, request_g));
            assert(sink_send_attempt(old(self).ch, self.ch, admin_cmd_msg(region, peer, rid_g, request_g)));
        }
    }

    /// Asks the placement service to authorize splitting `region` at
    /// `split_key`. On success the allotted identifiers are wrapped into
    /// a split command; on failure the task is dropped without retry —
    /// the owning peer re-asks later if the split is still wanted.
    fn handle_ask_split(&mut self, region: Region, split_key: Vec<u8>, peer: Peer)
        ensures
            final(self).pd_client == old(self).pd_client,
            exists|o: Result<AskSplitResponse, PdError>|
                #[trigger] ask_split_post(*old(self), *final(self), region, split_key, peer, o),
    {
        self.counters.ask_split_all = next_count(self.counters.ask_split_all);
        match self.pd_client.ask_split(region.clone()) {
            Ok(resp) => {
                self.counters.ask_split_success = next_count(self.counters.ask_split_success);
                let ghost resp_g = resp;
                let ghost split_key_g = split_key;
                let AskSplitResponse { new_region_id, new_peer_ids } = resp;
                let req = new_split_region_request(split_key, new_region_id, new_peer_ids);
                self.send_admin_request(region, peer, req);
                proof {
                    assert(ask_split_post(*old(self), *self, region, split_key_g, peer, Ok(resp_g)));
                }
            },
            Err(e) => {
                proof {
                    assert(ask_split_post(*old(self), *self, region, split_key, peer, Err(e)));
                }
            },
        }
    }

    /// Reports one region's state. The response may request at most one
    /// corrective action; a membership change takes priority over a
    /// leadership transfer if both ever arrive together. On failure the
    /// task is dropped: heartbeats repeat on the caller's own schedule.
    fn handle_heartbeat(
        &mut self,
        region: Region,
        peer: Peer,
        down_peers: Vec<PeerStats>,
        pending_peers: Vec<Peer>,
    )
        ensures
            final(self).pd_client == old(self).pd_client,
            exists|o: Result<RegionHeartbeatResponse, PdError>|
                #[trigger] heartbeat_post(*old(self), *final(self), region, peer, o),
    {
        self.counters.heartbeat_all = next_count(self.counters.heartbeat_all);
        match self.pd_client.region_heartbeat(region.clone(), peer, down_peers, pending_peers) {
            Ok(resp) => {
                self.counters.heartbeat_success = next_count(self.counters.heartbeat_success);
                match resp.change_peer {
                    Some(cp) => {
                        self.counters.heartbeat_change_peer = next_count(
                            self.counters.heartbeat_change_peer,
                        );
                        let req = new_change_peer_request(cp.change_type, cp.peer);
                        self.send_admin_request(region, peer, req);
                    },
                    None => match resp.transfer_leader {
                        Some(tl) => {
                            self.counters.heartbeat_transfer_leader = next_count(
                                self.counters.heartbeat_transfer_leader,
                            );
                            let req = new_transfer_leader_request(tl.peer);
                            self.send_admin_request(region, peer, req);
                        },
                        None => {},
                    },
                }
                proof {
                    assert(heartbeat_post(*old(self), *self, region, peer, Ok(resp)));
                }
            },
            Err(e) => {
                proof {
                    assert(heartbeat_post(*old(self), *self, region, peer, Err(e)));
                }
            },
        }
    }

    /// Reports store-level statistics. No follow-up command exists for
    /// this call; a failure is dropped and the next cycle reports again.
    fn handle_store_heartbeat(&mut self, stats: StoreStats)
        ensures
            final(self).pd_client == old(self).pd_client,
            final(self).counters == old(self).counters,
            final(self).ch == old(self).ch,
    {
        match self.pd_client.store_heartbeat(stats) {
            Ok(_) => {},
            Err(_) => {},
        }
    }

    /// Tells the placement service that a split produced `left` and
    /// `right`. Best-effort notification: no follow-up command, and a
    /// failure is dropped.
    fn handle_report_split(&mut self, left: Region, right: Region)
        ensures
            final(self).pd_client == old(self).pd_client,
            exists|o: Result<(), PdError>| #[trigger] report_split_post(*old(self), *final(self), o),
    {
        self.counters.report_split_all = next_count(self.counters.report_split_all);
        match self.pd_client.report_split(left, right) {
            Ok(_) => {
                self.counters.report_split_success = next_count(self.counters.report_split_success);
                proof {
                    assert(report_split_post(*old(self), *self, Ok::<(), PdError>(())));
                }
            },
            Err(e) => {
                proof {
                    assert(report_split_post(*old(self), *self, Err::<(), PdError>(e)));
                }
            },
        }
    }

    /// Offers the tombstone for `peer`'s replica of `local_region` to
    /// the outbound queue, carrying the placement service's fresher
    /// epoch from `pd_region`.
    fn send_destroy_peer_message(&mut self, local_region: Region, peer: Peer, pd_region: Region)
        ensures
            final(self).pd_client == old(self).pd_client,
            final(self).counters == old(self).counters,
            sink_send_attempt(
                old(self).ch,
                final(self).ch,
                (Msg::RaftMessage { message: tombstone_message(local_region, peer, pd_region) }),
            ),
    {
        let message = RaftMessage {
            region_id: local_region.id,
            from_peer: peer,
            to_peer: peer,
            region_epoch: pd_region.region_epoch,
            is_tombstone: true,
        };
        let _accepted: bool = self.ch.try_send(Msg::RaftMessage { message });
    }

    /// Checks `peer`'s membership of `local_region` against the
    /// placement service's copy. A missing remote region means a split
    /// or merge has not propagated yet: no action. A remote epoch that
    /// lags the local one is an anomaly the node cannot resolve: no
    /// action. Only a fresh remote region that no longer lists the peer
    /// triggers a tombstone.
    fn handle_validate_peer(&mut self, local_region: Region, peer: Peer)
        ensures
            final(self).pd_client == old(self).pd_client,
            exists|o: Result<Option<Region>, PdError>|
                #[trigger] validate_peer_post(*old(self), *final(self), local_region, peer, o),
    {
        self.counters.get_region_all = next_count(self.counters.get_region_all);
        match self.pd_client.get_region_by_id(local_region.id) {
            Ok(Some(pd_region)) => {
                let ghost pd_region_g = pd_region;
                self.counters.get_region_success = next_count(self.counters.get_region_success);
                if is_epoch_stale(pd_region.region_epoch, local_region.region_epoch) {
                    // The placement service still holds an older epoch even
                    // though it should long have caught up: a standing
                    // anomaly that only an operator can resolve.
                    self.counters.validate_epoch_error = next_count(self.counters.validate_epoch_error);
                } else if !region_contains_peer(&pd_region, &peer) {
                    // The peer was administratively removed; tell it to
                    // destroy itself.
                    self.counters.validate_peer_stale = next_count(self.counters.validate_peer_stale);
                    self.send_destroy_peer_message(local_region, peer, pd_region);
                } else {
                    self.counters.validate_peer_valid = next_count(self.counters.validate_peer_valid);
                }
                proof {
                    assert(validate_peer_post(
                        *old(self),
                        *self,
                        local_region,
                        peer,
                        Ok(Some(pd_region_g)),
                    ));
                }
            },
            Ok(None) => {
                // The split or merge that produced this region has not
                // reached the placement service yet.
                proof {
                    assert(validate_peer_post(
                        *old(self),
                        *self,
                        local_region,
                        peer,
                        Ok(None::<Region>),
                    ));
                }
            },
            Err(e) => {
                proof {
                    assert(validate_peer_post(*old(self), *self, local_region, peer, Err(e)));
                }
            },
        }
    }

    /// Processes one task to completion. Never fails and never blocks on
    /// the outbound queue: whatever the placement service or the queue
    /// did, the worker is ready for the next task when this returns.
    pub fn run(&mut self, task: Task)
        ensures
            run_post(*old(self), *final(self), task),
    {
        match task {
            Task::AskSplit { region, split_key, peer } => self.handle_ask_split(region, split_key, peer),
            Task::Heartbeat { region, peer, down_peers, pending_peers } => {
                self.handle_heartbeat(region, peer, down_peers, pending_peers)
            },
            Task::StoreHeartbeat { stats } => self.handle_store_heartbeat(stats),
            Task::ReportSplit { left, right } => self.handle_report_split(left, right),
            Task::ValidatePeer { region, peer } => self.handle_validate_peer(region, peer),
        }
    }
}

/// If a heartbeat response carries both a membership change and a
/// leadership transfer, the worker acts on the membership change alone:
/// exactly the change-peer command is derived, and the transfer is
/// ignored for this cycle.
pub proof fn lemma_change_peer_takes_priority(
    resp: RegionHeartbeatResponse,
    cp: ChangePeerDirective,
    tl: TransferLeaderDirective,
)
    requires
        resp.change_peer == Some(cp),
        resp.transfer_leader == Some(tl),
    ensures
        heartbeat_action(resp) == Some(
            AdminRequest::ChangePeer { change_type: cp.change_type, peer: cp.peer },
        ),
{
}

/// When the remote region is found but its epoch lags the local one, no
/// command is derived, even if the queried peer is also missing from the
/// remote peer set: the epoch check short-circuits the membership check.
pub proof fn lemma_stale_remote_epoch_short_circuits(local_region: Region, peer: Peer, pd_region: Region)
    requires
        epoch_stale_spec(pd_region.region_epoch, local_region.region_epoch),
        !pd_region.peers@.contains(peer),
    ensures
        validate_peer_action(local_region, peer, pd_region) is None,
{
}

/// When the remote epoch is fresh and the queried peer is absent from
/// the remote peer set, the derived command is the tombstone aimed at
/// that peer, carrying the remote region's epoch.
pub proof fn lemma_removed_peer_gets_tombstone(local_region: Region, peer: Peer, pd_region: Region)
    requires
        !epoch_stale_spec(pd_region.region_epoch, local_region.region_epoch),
        !pd_region.peers@.contains(peer),
    ensures
        validate_peer_action(local_region, peer, pd_region) == Some(
            tombstone_message(local_region, peer, pd_region),
        ),
        tombstone_message(local_region, peer, pd_region).to_peer == peer,
        tombstone_message(local_region, peer, pd_region).region_epoch == pd_region.region_epoch,
        tombstone_message(local_region, peer, pd_region).is_tombstone,
{
}

/// When the queried peer is present in the remote peer set, no command
/// is derived, whatever the epochs say.
pub proof fn lemma_member_peer_left_alone(local_region: Region, peer: Peer, pd_region: Region)
    requires
        pd_region.peers@.contains(peer),
    ensures
        validate_peer_action(local_region, peer, pd_region) is None,
{
}

/// An outbound send failure is local to the one command it concerned;
/// it never stops the worker. Whatever the placement service answered
/// and whatever the queue's state, processing one task keeps the queue's
/// capacity and closedness, keeps every message already accepted, adds
/// at most one message — and none at all when the queue could not accept
/// one — and the request counter for the task's call kind still
/// advances.
pub proof fn lemma_send_failure_is_local<T: PdClient>(pre: Runner<T>, post: Runner<T>, task: Task)
    requires
        run_post(pre, post, task),
    ensures
        post.ch.capacity() == pre.ch.capacity(),
        post.ch.is_closed() == pre.ch.is_closed(),
        pre.ch.contents().len() <= post.ch.contents().len(),
        post.ch.contents().len() <= pre.ch.contents().len() + 1,
        forall|i: int|
            0 <= i < pre.ch.contents().len() ==> post.ch.contents()[i] == pre.ch.contents()[i],
        !pre.ch.can_accept() ==> post.ch.contents() == pre.ch.contents(),
        (match task {
            Task::AskSplit { .. } => post.counters.ask_split_all == sat_inc(pre.counters.ask_split_all),
            Task::Heartbeat { .. } => post.counters.heartbeat_all == sat_inc(pre.counters.heartbeat_all),
            Task::StoreHeartbeat { .. } => post.counters == pre.counters,
            Task::ReportSplit { .. } => post.counters.report_split_all == sat_inc(
                pre.counters.report_split_all,
            ),
            Task::ValidatePeer { .. } => post.counters.get_region_all == sat_inc(
                pre.counters.get_region_all,
            ),
        }),
{
    match task {
        Task::AskSplit { region, split_key, peer } => {
            let o = choose|o: Result<AskSplitResponse, PdError>|
                #[trigger] ask_split_post(pre, post, region, split_key, peer, o);
            if o is Ok {
                let req = AdminRequest::Split {
                    split_key: split_key,
                    new_region_id: o->Ok_0.new_region_id,
                    new_peer_ids: o->Ok_0.new_peer_ids,
                };
                let rid = choose|rid: Vec<u8>|
                    rid@.len() == 16 && #[trigger] sink_send_attempt(
                        pre.ch,
                        post.ch,
                        admin_cmd_msg(region, peer, rid, req),
                    );
                assert(sink_send_attempt(pre.ch, post.ch, admin_cmd_msg(region, peer, rid, req)));
            }
        },
        Task::Heartbeat { region, peer, .. } => {
            let o = choose|o: Result<RegionHeartbeatResponse, PdError>|
                #[trigger] heartbeat_post(pre, post, region, peer, o);
            if o is Ok && heartbeat_action(o->Ok_0) is Some {
                let req = heartbeat_action(o->Ok_0)->Some_0;
                let rid = choose|rid: Vec<u8>|
                    rid@.len() == 16 && #[trigger] sink_send_attempt(
                        pre.ch,
                        post.ch,
                        admin_cmd_msg(region, peer, rid, req),
                    );
                assert(sink_send_attempt(pre.ch, post.ch, admin_cmd_msg(region, peer, rid, req)));
            }
        },
        Task::StoreHeartbeat { .. } => {},
        Task::ReportSplit { .. } => {
            let o = choose|o: Result<(), PdError>| #[trigger] report_split_post(pre, post, o);
            assert(report_split_post(pre, post, o));
        },
        Task::ValidatePeer { region, peer } => {
            let o = choose|o: Result<Option<Region>, PdError>|
                #[trigger] validate_peer_post(pre, post, region, peer, o);
            assert(validate_peer_post(pre, post, region, peer, o));
        },
    }
}

/// All counters at zero, for construction.
fn counters_zero_exec() -> (r: Counters)
    ensures
        r == counters_zero(),
{
    Counters {
        ask_split_all: 0,
        ask_split_success: 0,
        heartbeat_all: 0,
        heartbeat_success: 0,
        report_split_all: 0,
        report_split_success: 0,
        get_region_all: 0,
        get_region_success: 0,
        heartbeat_change_peer: 0,
        heartbeat_transfer_leader: 0,
        validate_epoch_error: 0,
        validate_peer_stale: 0,
        validate_peer_valid: 0,
    }
}

} // verus!
