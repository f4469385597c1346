//! Cluster-coordination layer of a Raft-based storage node.
//!
//! A storage node offloads slow, network-bound calls to the central
//! placement service onto dedicated worker threads, so that the
//! latency-critical consensus loop never blocks. This crate holds the
//! data model for that exchange (regions, peers, epochs, tasks and the
//! commands derived from placement-service responses), the sequential
//! task runner that interprets responses, the bounded lossy channel the
//! runner answers through, and the event-dispatch contract between the
//! I/O substrate and the consensus loop.

pub mod command;
pub mod handler;
pub mod pd;
pub mod region;
pub mod transport;
pub mod worker;

