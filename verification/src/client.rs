//! Processing of one chat-retrieval response.
//!
//! The transport issues one HTTP POST per poll and parses the response
//! body's two fixed paths into a [`ChatResponse`]: the raw action list and
//! the continuations array.  `poll_once` turns that into the normalized
//! message batch and the rotated continuation cursor, or the protocol
//! failure that stops the session.

use vstd::prelude::*;

use crate::messages::NormalizedMessage;
use crate::messages::NormalizedMessageView;
use crate::messages::RawChatAction;
use crate::messages::RawChatActionView;
use crate::messages::normalize;
use crate::messages::spec_normalize;

verus! {

/// An opaque server-issued continuation token, tagged with which
/// continuation strategy produced it.  Both shapes are polled the same
/// way; the tag is preserved for diagnostics and forward compatibility.
#[derive(Debug, Clone, PartialEq, Eq)]
pub enum ContinuationCursor {
    Timed(String),
    Invalidation(String),
}

pub enum ContinuationCursorView {
    Timed(Seq<char>),
    Invalidation(Seq<char>),
}

impl DeepView for ContinuationCursor {
    type V = ContinuationCursorView;

    open spec fn deep_view(&self) -> ContinuationCursorView {
        match self {
            ContinuationCursor::Timed(t) => ContinuationCursorView::Timed(t@),
            ContinuationCursor::Invalidation(t) => ContinuationCursorView::Invalidation(t@),
        }
    }
}

impl ContinuationCursor {
    /// The token presented on the next poll; the tag plays no role there.
    pub open spec fn spec_token(&self) -> Seq<char> {
        match self {
            ContinuationCursor::Timed(t) => t@,
            ContinuationCursor::Invalidation(t) => t@,
        }
    }

    pub fn token(&self) -> (r: &String)
        ensures
            r@ == self.spec_token(),
    {
        match self {
            ContinuationCursor::Timed(t) => t,
            ContinuationCursor::Invalidation(t) => t,
        }
    }
}

/// The first entry of a response's continuations array, reduced to the two
/// shapes it may carry; each shape exposes one continuation string.
#[derive(Debug, Clone, PartialEq, Eq)]
pub struct ContinuationEntry {
    /// The timed-shaped sub-object's continuation string, when present.
    pub timed: Option<String>,
    /// The invalidation-shaped sub-object's continuation string, when
    /// present.
    pub invalidation: Option<String>,
}

pub struct ContinuationEntryView {
    pub timed: Option<Seq<char>>,
    pub invalidation: Option<Seq<char>>,
}

impl DeepView for ContinuationEntry {
    type V = ContinuationEntryView;

    open spec fn deep_view(&self) -> ContinuationEntryView {
        ContinuationEntryView {
            timed: self.timed.deep_view(),
            invalidation: self.invalidation.deep_view(),
        }
    }
}

/// A chat-retrieval response, read at its two fixed paths: the action list
/// and the continuations array.
#[derive(Debug, Clone, PartialEq, Eq)]
pub struct ChatResponse {
    pub actions: Vec<RawChatAction>,
    pub continuations: Vec<ContinuationEntry>,
}

pub struct ChatResponseView {
    pub actions: Seq<RawChatActionView>,
    pub continuations: Seq<ContinuationEntryView>,
}

impl DeepView for ChatResponse {
    type V = ChatResponseView;

    open spec fn deep_view(&self) -> ChatResponseView {
        ChatResponseView {
            actions: self.actions.deep_view(),
            continuations: self.continuations.deep_view(),
        }
    }
}

/// Why a structurally delivered response could not advance the session.
/// All of these are fatal: without a next cursor the session cannot move.
#[derive(Debug, Clone, Copy, PartialEq, Eq, Structural)]
pub enum ProtocolError {
    /// The continuations array is empty; no next cursor exists.
    MissingContinuationList,
    /// The first continuation entry carries neither known shape.
    UnknownContinuationShape,
    /// The response body could not be read at the two fixed paths.  The
    /// transport layer reports it; `poll_once` itself never produces it.
    MalformedResponseBody,
}

/// One poll's failure as the polling loop sees it.
#[derive(Debug, Clone, Copy, PartialEq, Eq, Structural)]
pub enum PollError {
    /// Transport-level failure; soft, the next tick retries the same
    /// cursor.
    Network,
    /// Structural failure of the response; fatal to the session.
    Protocol(ProtocolError),
}

/// What a successful poll yields.
#[derive(Debug, Clone, PartialEq, Eq)]
pub struct PollOutcome {
    /// The normalized batch, in server order; may be empty.
    pub messages: Vec<NormalizedMessage>,
    /// The rotated cursor to present on the next poll.
    pub next_cursor: ContinuationCursor,
    /// The response's action list was empty: a valid no-news outcome,
    /// distinct from any failure.
    pub no_actions: bool,
}

#[verifier::ext_equal]
pub struct PollOutcomeView {
    pub messages: Seq<NormalizedMessageView>,
    pub next_cursor: ContinuationCursorView,
    pub no_actions: bool,
}

impl DeepView for PollOutcome {
    type V = PollOutcomeView;

    open spec fn deep_view(&self) -> PollOutcomeView {
        PollOutcomeView {
            messages: self.messages.deep_view(),
            next_cursor: self.next_cursor.deep_view(),
            no_actions: self.no_actions,
        }
    }
}

/// What processing one response yields: the continuations array must be
/// non-empty and its first entry must carry one of the two known shapes,
/// the timed one winning when both are present; the action list is
/// normalized as-is, an empty one being the valid no-news case.
pub open spec fn spec_poll_once(resp: ChatResponseView) -> Result<PollOutcomeView, ProtocolError> {
    if resp.continuations.len() == 0 {
        Err(ProtocolError::MissingContinuationList)
    } else {
        let first = resp.continuations[0];
        match first.timed {
            Some(t) => Ok(
                PollOutcomeView {
                    messages: spec_normalize(resp.actions),
                    next_cursor: ContinuationCursorView::Timed(t),
                    no_actions: resp.actions.len() == 0,
                },
            ),
            None => match first.invalidation {
                Some(t) => Ok(
                    PollOutcomeView {
                        messages: spec_normalize(resp.actions),
                        next_cursor: ContinuationCursorView::Invalidation(t),
                        no_actions: resp.actions.len() == 0,
                    },
                ),
                None => Err(ProtocolError::UnknownContinuationShape),
            },
        }
    }
}

/// Processes one structurally delivered chat-retrieval response into the
/// normalized batch and the next cursor.
pub fn poll_once(resp: &ChatResponse) -> (r: Result<PollOutcome, ProtocolError>)
    ensures
        match r {
            Ok(out) => spec_poll_once(resp.deep_view()) == Ok::<PollOutcomeView, ProtocolError>(
                out.deep_view(),
            ),
            Err(e) => spec_poll_once(resp.deep_view()) == Err::<PollOutcomeView, ProtocolError>(e),
        },
{
    if resp.continuations.len() == 0 {
        return Err(ProtocolError::MissingContinuationList);
    }
    let first = &resp.continuations[0];
    let next_cursor = match &first.timed {
        Some(t) => ContinuationCursor::Timed(t.clone()),
        None => match &first.invalidation {
            Some(t) => ContinuationCursor::Invalidation(t.clone()),
            None => {
                return Err(ProtocolError::UnknownContinuationShape);
            },
        },
    };
    let messages = normalize(&resp.actions);
    let no_actions = resp.actions.len() == 0;
    let out = PollOutcome { messages, next_cursor, no_actions };
    proof {
        assert(match spec_poll_once(resp.deep_view()) {
            Ok(v) => v =~= out.deep_view(),
            Err(_) => false,
        });
    }
    Ok(out)
}

/// Cursor rotation: a timed-shaped first entry yields a `Timed` cursor
/// carrying exactly that entry's continuation string, an
/// invalidation-shaped one yields `Invalidation` analogously, and an entry
/// with neither shape fails with `UnknownContinuationShape`.
pub proof fn lemma_cursor_rotation(resp: ChatResponseView)
    requires
        resp.continuations.len() > 0,
    ensures
        match resp.continuations[0].timed {
            Some(t) => match spec_poll_once(resp) {
                Ok(out) => out.next_cursor == ContinuationCursorView::Timed(t),
                Err(_) => false,
            },
            None => match resp.continuations[0].invalidation {
                Some(t) => match spec_poll_once(resp) {
                    Ok(out) => out.next_cursor == ContinuationCursorView::Invalidation(t),
                    Err(_) => false,
                },
                None => spec_poll_once(resp) == Err::<PollOutcomeView, ProtocolError>(
                    ProtocolError::UnknownContinuationShape,
                ),
            },
        },
{
}

/// An empty action list is a valid no-news outcome, not a failure: with a
/// well-shaped continuations array the poll succeeds with an empty batch
/// and still rotates the cursor.
pub proof fn lemma_empty_batch_not_error(resp: ChatResponseView)
    requires
        resp.actions.len() == 0,
        resp.continuations.len() > 0,
        resp.continuations[0].timed is Some || resp.continuations[0].invalidation is Some,
    ensures
        match spec_poll_once(resp) {
            Ok(out) => {
                &&& out.messages.len() == 0
                &&& out.no_actions
            },
            Err(_) => false,
        },
{
}

} // verus!
