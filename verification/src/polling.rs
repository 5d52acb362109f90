//! The polling loop's state machine.
//!
//! One long-lived task per session drives this machine: it resolves the
//! session once, then issues one chat poll per tick, delivering each
//! normalized batch to the sink and rotating the cursor.  The transport
//! (HTTP, the interval timer, cancellation) lives outside the crate; it
//! feeds every completed step back in as a [`LoopEvent`] and performs the
//! returned [`LoopAction`].  The machine owns the only mutable state of a
//! session: the continuation token presented on the next poll.

use vstd::prelude::*;

use crate::client::PollError;
use crate::client::PollOutcome;
use crate::client::ProtocolError;
use crate::messages::NormalizedMessage;
use crate::session::SessionInfo;
use crate::session::SessionResolutionError;

verus! {

/// The session's lifecycle: resolving the page, polling chat, or done.
#[derive(Debug, Clone, PartialEq, Eq)]
pub enum LoopState {
    /// Waiting for the one-shot session resolution.
    Resolving,
    /// Actively polling; `cursor` is the token to present on the next
    /// poll.  It is replaced only after a successful poll.
    Polling { session: SessionInfo, cursor: String },
    /// Session resolution failed; terminal, the reason is kept.
    Failed { reason: SessionResolutionError },
    /// Cancelled from outside, or halted by a fatal protocol failure;
    /// terminal.
    Stopped,
}

/// One completed piece of outside work, fed back into the machine.
#[derive(Debug, PartialEq, Eq)]
pub enum LoopEvent {
    /// Session resolution finished.
    Resolved(Result<SessionInfo, SessionResolutionError>),
    /// One chat poll finished.
    PollDone(Result<PollOutcome, PollError>),
    /// The external stop signal fired.
    Cancelled,
}

/// What the transport must do after a step.
#[derive(Debug, Clone, PartialEq, Eq)]
pub enum LoopAction {
    /// Issue a chat poll now with the state's cursor (the warm-up poll
    /// right after resolution is immediate).
    Poll,
    /// Hand the batch to the sink, wait one interval, then poll again.
    Deliver(Vec<NormalizedMessage>),
    /// Report a soft failure, wait one interval, then retry the same
    /// cursor.
    ReportSoft,
    /// Report the fatal resolution failure; the session is over.
    ReportResolutionFailure(SessionResolutionError),
    /// Report the fatal protocol failure; the session is over.
    ReportFatal(ProtocolError),
    /// Nothing left to do.
    Idle,
}

/// An event fits the state it arrives in: resolution results only while
/// resolving, poll results only while polling, and nothing but
/// cancellation once the machine is terminal.  A resolved session must be
/// live: one without an initial continuation cursor cannot be polled and
/// never enters the machine.
pub open spec fn event_fits(state: LoopState, event: LoopEvent) -> bool {
    match event {
        LoopEvent::Resolved(r) => {
            &&& state is Resolving
            &&& (match r {
                Ok(info) => info.continuation is Some,
                Err(_) => true,
            })
        },
        LoopEvent::PollDone(_) => state is Polling,
        LoopEvent::Cancelled => true,
    }
}

/// Advances the machine by one completed piece of outside work.
///
/// The transitions, exactly: cancellation stops the machine from any
/// state; a resolution failure is terminal with its reason kept; a
/// resolved live session starts polling at its initial cursor with an
/// immediate warm-up poll; a successful poll delivers its batch and
/// replaces the cursor with the rotated token; a network failure keeps
/// the cursor and retries next tick; a protocol failure stops the
/// session.
pub fn loop_step(state: LoopState, event: LoopEvent) -> (r: (LoopState, LoopAction))
    requires
        event_fits(state, event),
    ensures
        event is Cancelled ==> r == (LoopState::Stopped, LoopAction::Idle),
        match event {
            LoopEvent::Resolved(res) => match res {
                Ok(info) => match info.continuation {
                    Some(c) => r == (
                        LoopState::Polling { session: info, cursor: c },
                        LoopAction::Poll,
                    ),
                    None => false,
                },
                Err(e) => r == (
                    LoopState::Failed { reason: e },
                    LoopAction::ReportResolutionFailure(e),
                ),
            },
            LoopEvent::PollDone(res) => match res {
                Ok(out) => (match state {
                    LoopState::Polling { session, cursor } => {
                        &&& (match r.0 {
                            LoopState::Polling { session: s2, cursor: c2 } => {
                                &&& s2 == session
                                &&& c2@ == out.next_cursor.spec_token()
                            },
                            _ => false,
                        })
                        &&& r.1 == LoopAction::Deliver(out.messages)
                    },
                    _ => false,
                }),
                Err(PollError::Network) => r == (state, LoopAction::ReportSoft),
                Err(PollError::Protocol(p)) => r == (LoopState::Stopped, LoopAction::ReportFatal(p)),
            },
            LoopEvent::Cancelled => true,
        },
{
    match event {
        LoopEvent::Cancelled => (LoopState::Stopped, LoopAction::Idle),
        LoopEvent::Resolved(res) => match res {
            Ok(info) => {
                let cursor = match &info.continuation {
                    Some(c) => c.clone(),
                    None => String::new(),
                };
                (LoopState::Polling { session: info, cursor }, LoopAction::Poll)
            },
            Err(e) => (LoopState::Failed { reason: e }, LoopAction::ReportResolutionFailure(e)),
        },
        LoopEvent::PollDone(res) => match res {
            Ok(out) => match state {
                LoopState::Polling { session, cursor: _ } => {
                    let next = out.next_cursor.token().clone();
                    (
                        LoopState::Polling { session, cursor: next },
                        LoopAction::Deliver(out.messages),
                    )
                },
                _ => (LoopState::Stopped, LoopAction::Idle),
            },
            Err(PollError::Network) => {
                let a = LoopAction::ReportSoft;
                (state, a)
            },
            Err(PollError::Protocol(p)) => (LoopState::Stopped, LoopAction::ReportFatal(p)),
        },
    }
}

} // verus!
