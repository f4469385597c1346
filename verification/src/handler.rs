//! The event-dispatch contract between the I/O substrate and the
//! consensus loop.
//!
//! The I/O substrate multiplexes sockets and timers and knows nothing of
//! consensus semantics; the consensus loop's owner implements this trait
//! and is called back, inline on the substrate's single dispatch thread,
//! when data arrives, a tick elapses, a timer fires, or the process
//! shuts down. Every operation has a no-op or identity default, so an
//! implementer overrides only what it needs; none of them may block.

use vstd::prelude::*;

verus! {

/// Identifies one connection of the I/O substrate.
#[derive(Clone, Copy, PartialEq, Eq, Structural, Debug)]
pub struct Token {
    pub id: usize,
}

/// One fully decoded application message of a connection.
#[derive(Clone, Debug)]
pub struct ConnData {
    pub msg_id: u64,
    pub data: Vec<u8>,
}

/// The payload of a previously scheduled custom timer.
#[derive(Clone, Copy, PartialEq, Eq, Structural, Debug)]
pub struct TimerMsg {
    pub payload: u64,
}

/// The handle an implementer may use to enqueue further work onto the
/// event loop. The substrate that gives it meaning lies outside this
/// crate; the dispatch contract only passes it through.
pub struct Sender {
    pub id: u64,
}

/// A failure an implementer surfaces to the substrate, which logs it and
/// carries on dispatching.
#[derive(Clone, Copy, PartialEq, Eq, Structural, Debug)]
pub struct ServerError {
    pub code: u64,
}

/// The four dispatch operations. Defaults do nothing: reads echo the
/// decoded messages back unchanged, ticks and timers are ignored, and
/// shutdown releases nothing.
pub trait ServerHandler: Sized {
    /// Called when the substrate has fully decoded one or more messages
    /// from the connection `token`; the returned messages are written
    /// back to that same connection.
    fn handle_read_data(&mut self, sender: &Sender, token: Token, msgs: Vec<ConnData>) -> (r: Result<
        Vec<ConnData>,
        ServerError,
    >)
        default_ensures
            r == Ok::<Vec<ConnData>, ServerError>(msgs),
            *final(self) == *old(self),
    {
        Ok(msgs)
    }

    /// Called once per fixed scheduling interval, for periodic
    /// bookkeeping.
    fn handle_tick(&mut self, sender: &Sender) -> (r: Result<(), ServerError>)
        default_ensures
            r == Ok::<(), ServerError>(()),
            *final(self) == *old(self),
    {
        Ok(())
    }

    /// Called when a previously scheduled custom timer fires.
    fn handle_timer(&mut self, sender: &Sender, msg: TimerMsg) -> (r: Result<(), ServerError>)
        default_ensures
            r == Ok::<(), ServerError>(()),
            *final(self) == *old(self),
    {
        Ok(())
    }

    /// Called exactly once during shutdown, before the event loop stops
    /// dispatching; cleanup belongs here. No operation that needs a
    /// sender is valid afterwards.
    fn handle_quit(&mut self)
        default_ensures
            *final(self) == *old(self),
    {
    }
}

} // verus!
