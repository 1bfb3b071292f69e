//! The broadcast session: the per-connection state machine.
//!
//! One session serves one WebSocket client. It owns a cursor, the
//! version it last pushed, and reacts to three kinds of event: the
//! connection opening, the keepalive timer firing, and the poll timer
//! firing. Each reaction yields a list of actions for the connection to
//! perform: messages to send and timers to arm. The session never
//! touches the connection itself, so every decision here is a pure step
//! of the machine and is verified as such.

use vstd::prelude::*;
use crate::store::{lemma_write_changes_version, write_one, StoreModel};

verus! {

/// Period of the keepalive timer, in milliseconds.
pub const KEEPALIVE_INTERVAL_MS: u32 = 1000;

/// Delay of the very first poll after the connection opens.
pub const POLL_FIRST_INTERVAL_MS: u32 = 100;

/// Period of every later poll.
pub const POLL_INTERVAL_MS: u32 = 200;

/// The handshake line sent once when the connection opens.
pub open spec fn handshake_text() -> Seq<char> {
    "VERSION 0.1"@
}

/// The liveness token sent on every keepalive firing.
pub open spec fn keepalive_text() -> Seq<char> {
    "PONG"@
}

pub fn handshake_message() -> (m: String)
    ensures
        m@ == handshake_text(),
{
    "VERSION 0.1".to_owned()
}

pub fn keepalive_message() -> (m: String)
    ensures
        m@ == keepalive_text(),
{
    "PONG".to_owned()
}

/// Lifecycle of a session: it opens on a successful handshake and
/// closes on a socket error, a client disconnect, or a send failure.
#[derive(Clone, Copy, Debug, PartialEq, Eq, Structural)]
pub enum SessionPhase {
    Connecting,
    Open,
    Closed,
}

/// The two independent per-session timers.
#[derive(Clone, Copy, Debug, PartialEq, Eq, Structural)]
pub enum TimerKind {
    Keepalive,
    Poll,
}

/// What a session asks its connection to perform: send one message, or
/// arm one timer with a delay in milliseconds.
#[derive(Debug, PartialEq, Eq)]
pub enum Action {
    Send(String),
    ArmTimer(TimerKind, u32),
}

/// The poll decision: given the cursor and an observed store snapshot,
/// the new cursor and the payload to push, if any. The session pushes
/// exactly when the observed version differs from its cursor.
pub open spec fn poll_step(last_seen: u32, version: u32, payload: Seq<char>) -> (u32, Option<
    Seq<char>,
>) {
    if version != last_seen {
        (version, Some(payload))
    } else {
        (last_seen, None)
    }
}

/// One broadcast session: its phase and its cursor, the store version
/// it last pushed to its client.
pub struct Session {
    pub phase: SessionPhase,
    pub last_seen_version: u32,
}

impl Session {
    /// A session created at connection time captures the store version
    /// current at that moment, so a fresh client is not pushed the
    /// pre-existing state unless a write lands afterwards.
    pub fn new(store_version: u32) -> (s: Session)
        ensures
            s.phase is Connecting,
            s.last_seen_version == store_version,
    {
        Session { phase: SessionPhase::Connecting, last_seen_version: store_version }
    }

    /// The handshake succeeded: send the version line once, then arm
    /// the keepalive timer and the first, shorter, poll delay.
    pub fn on_open(&mut self) -> (acts: Vec<Action>)
        requires
            old(self).phase is Connecting,
        ensures
            final(self).phase is Open,
            final(self).last_seen_version == old(self).last_seen_version,
            acts@.len() == 3,
            acts@[0] matches Action::Send(m) && m@ == handshake_text(),
            acts@[1] == Action::ArmTimer(TimerKind::Keepalive, KEEPALIVE_INTERVAL_MS),
            acts@[2] == Action::ArmTimer(TimerKind::Poll, POLL_FIRST_INTERVAL_MS),
    {
        self.phase = SessionPhase::Open;
        let mut acts: Vec<Action> = Vec::new();
        acts.push(Action::Send(handshake_message()));
        acts.push(Action::ArmTimer(TimerKind::Keepalive, KEEPALIVE_INTERVAL_MS));
        acts.push(Action::ArmTimer(TimerKind::Poll, POLL_FIRST_INTERVAL_MS));
        acts
    }

    /// The keepalive timer fired: send the liveness token and rearm.
    /// This takes no store snapshot at all: keepalives are independent
    /// of writes, and the cursor does not move.
    pub fn on_keepalive(&self) -> (acts: Vec<Action>)
        requires
            self.phase is Open,
        ensures
            acts@.len() == 2,
            acts@[0] matches Action::Send(m) && m@ == keepalive_text(),
            acts@[1] == Action::ArmTimer(TimerKind::Keepalive, KEEPALIVE_INTERVAL_MS),
    {
        let mut acts: Vec<Action> = Vec::new();
        acts.push(Action::Send(keepalive_message()));
        acts.push(Action::ArmTimer(TimerKind::Keepalive, KEEPALIVE_INTERVAL_MS));
        acts
    }

    /// The poll timer fired and the store snapshot read under its lock
    /// is `(version, payload)`: push the payload and move the cursor
    /// exactly when the version differs from the cursor, and rearm the
    /// poll timer with the steady-state period either way.
    pub fn on_poll(&mut self, version: u32, payload: String) -> (acts: Vec<Action>)
        requires
            old(self).phase is Open,
        ensures
            final(self).phase is Open,
            final(self).last_seen_version == poll_step(
                old(self).last_seen_version,
                version,
                payload@,
            ).0,
            match poll_step(old(self).last_seen_version, version, payload@).1 {
                Some(p) => acts@.len() == 2 && (acts@[0] matches Action::Send(m) && m@ == p)
                    && acts@[1] == Action::ArmTimer(TimerKind::Poll, POLL_INTERVAL_MS),
                None => acts@.len() == 1 && acts@[0] == Action::ArmTimer(
                    TimerKind::Poll,
                    POLL_INTERVAL_MS,
                ),
            },
    {
        let mut acts: Vec<Action> = Vec::new();
        if version != self.last_seen_version {
            acts.push(Action::Send(payload));
            self.last_seen_version = version;
        }
        acts.push(Action::ArmTimer(TimerKind::Poll, POLL_INTERVAL_MS));
        acts
    }

    /// A send failed, the socket erred, or the client disconnected:
    /// the session closes. Its timers are simply never rearmed; other
    /// sessions and the router are unaffected.
    pub fn close(&mut self)
        ensures
            final(self).phase is Closed,
            final(self).last_seen_version == old(self).last_seen_version,
    {
        self.phase = SessionPhase::Closed;
    }
}

/// Session convergence: a session whose cursor is `v0`, polling a store
/// last written to version `v1 != v0` with payload `p1`, pushes `p1` on
/// that very poll and moves its cursor to `v1`; once writes cease, any
/// later poll still observes `v1` and pushes nothing more.
pub proof fn lemma_session_convergence(v0: u32, v1: u32, p1: Seq<char>)
    requires
        v1 != v0,
    ensures
        poll_step(v0, v1, p1) == (v1, Some(p1)),
        poll_step(v1, v1, p1) == (v1, Option::<Seq<char>>::None),
{
}

/// A single write is never missed: a session whose cursor equals the
/// store's version before a write pushes that write's payload on its
/// very next poll, because a write always changes the version.
pub proof fn lemma_single_write_is_pushed(m: StoreModel, p: Seq<char>)
    ensures
        poll_step(m.version, write_one(m, p).version, write_one(m, p).payload) == (
            write_one(m, p).version,
            Some(p),
        ),
{
    lemma_write_changes_version(m, p);
}

} // verus!
