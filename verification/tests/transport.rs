use pd_worker::command::{Msg, RaftMessage};
use pd_worker::region::{Peer, RegionEpoch};
use pd_worker::transport::BoundedSink;

fn raft_message(region_id: u64) -> Msg {
    let p = Peer { id: 1, store_id: 1 };
    Msg::RaftMessage {
        message: RaftMessage {
            region_id,
            from_peer: p,
            to_peer: p,
            region_epoch: RegionEpoch { version: 1, conf_ver: 1 },
            is_tombstone: true,
        },
    }
}

fn region_id_of(m: &Msg) -> u64 {
    match m {
        Msg::RaftMessage { message } => message.region_id,
        Msg::RaftCmd { request } => request.header.region_id,
    }
}

#[test]
fn try_send_accepts_until_capacity_then_drops() {
    let mut ch = BoundedSink::new(2);
    assert!(ch.try_send(raft_message(1)));
    assert!(ch.try_send(raft_message(2)));
    assert!(!ch.try_send(raft_message(3)));
    assert_eq!(ch.messages().len(), 2);
    assert_eq!(region_id_of(&ch.messages()[0]), 1);
    assert_eq!(region_id_of(&ch.messages()[1]), 2);
}

#[test]
fn try_send_fails_on_closed_queue() {
    let mut ch = BoundedSink::new(8);
    assert!(ch.try_send(raft_message(1)));
    ch.close();
    assert!(!ch.try_send(raft_message(2)));
    // What was accepted before the close is kept.
    assert_eq!(ch.messages().len(), 1);
}

#[test]
fn zero_capacity_queue_accepts_nothing() {
    let mut ch = BoundedSink::new(0);
    assert!(!ch.try_send(raft_message(1)));
    assert_eq!(ch.messages().len(), 0);
}
