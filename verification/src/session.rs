//! Session-parameter extraction from a video page's markup.
//!
//! A live session is described by five independent markers embedded in the
//! page text: a replay flag, the private API key, an initial continuation
//! cursor (live) or a scheduled-start time (upcoming), the platform client
//! version, and the canonical video identifier.  `resolve_session` scans
//! the raw markup for them and builds an immutable [`SessionInfo`].

use vstd::prelude::*;

use crate::scan::CaptureClass;
use crate::scan::find_flag;
use crate::scan::find_marker;
use crate::scan::find_triple;
use crate::scan::flag_found;
use crate::scan::marker_value;
use crate::scan::triple_value;

verus! {

/// Whether the page described an active live stream or one that has not
/// started yet.
#[derive(Debug, Clone, Copy, PartialEq, Eq, Structural)]
pub enum StreamType {
    Live,
    Scheduled,
}

/// Why a page's markup could not be resolved into a pollable session.
/// All of these are fatal to the session; none is retried.
#[derive(Debug, Clone, Copy, PartialEq, Eq, Structural)]
pub enum SessionResolutionError {
    /// The page reports a finished broadcast; live chat cannot be attached.
    ReplayNotSupported,
    /// The private API key marker is absent.
    MissingApiKey,
    /// Neither a continuation cursor nor a scheduled-start marker is present.
    MissingContinuation,
    /// The client version marker is absent.
    MissingClientVersion,
    /// The canonical video identifier is absent.
    MissingVideoId,
}

/// The immutable parameters of one chat session, as scraped from the page.
#[derive(Debug, Clone, PartialEq, Eq)]
pub struct SessionInfo {
    /// Set only when the page carries a replay marker; a successfully
    /// resolved session never has `Some(true)` here.
    pub is_replay: Option<bool>,
    /// Private key required on every chat-retrieval call.
    pub api_key: String,
    /// Derived from which of the two optional markers was found.
    pub stream_type: StreamType,
    /// Initial continuation cursor of an active live session.
    pub continuation: Option<String>,
    /// Present when the stream has not started yet.
    pub scheduled_start_time: Option<String>,
    /// Platform client version string, required by the retrieval endpoint.
    pub client_version: String,
    /// Canonical video identifier, for diagnostics and session identity.
    pub video_id: String,
}

/// The mathematical value of a [`SessionInfo`].
pub struct SessionInfoView {
    pub is_replay: Option<bool>,
    pub api_key: Seq<char>,
    pub stream_type: StreamType,
    pub continuation: Option<Seq<char>>,
    pub scheduled_start_time: Option<Seq<char>>,
    pub client_version: Seq<char>,
    pub video_id: Seq<char>,
}

impl DeepView for SessionInfo {
    type V = SessionInfoView;

    open spec fn deep_view(&self) -> SessionInfoView {
        SessionInfoView {
            is_replay: self.is_replay,
            api_key: self.api_key@,
            stream_type: self.stream_type,
            continuation: self.continuation.deep_view(),
            scheduled_start_time: self.scheduled_start_time.deep_view(),
            client_version: self.client_version@,
            video_id: self.video_id@,
        }
    }
}

pub open spec fn replay_key() -> Seq<char> {
    "\"isReplay\""@
}

pub open spec fn true_lit() -> Seq<char> {
    "true"@
}

pub open spec fn api_key_key() -> Seq<char> {
    "\"INNERTUBE_API_KEY\""@
}

pub open spec fn continuation_key() -> Seq<char> {
    "\"continuation\""@
}

pub open spec fn scheduled_key() -> Seq<char> {
    "\"scheduledStartTime\""@
}

pub open spec fn client_version_key() -> Seq<char> {
    "\"clientVersion\""@
}

pub open spec fn link_open() -> Seq<char> {
    "<link"@
}

pub open spec fn rel_canonical() -> Seq<char> {
    "rel=\"canonical\""@
}

pub open spec fn href_watch() -> Seq<char> {
    "href=\"https://www.youtube.com/watch?v="@
}

/// The page carries a replay marker set to `true`.
pub open spec fn replay_found(s: Seq<char>) -> bool {
    flag_found(s, replay_key(), true_lit())
}

pub open spec fn spec_api_key(s: Seq<char>) -> Option<Seq<char>> {
    marker_value(s, api_key_key(), CaptureClass::NonQuote)
}

pub open spec fn spec_continuation(s: Seq<char>) -> Option<Seq<char>> {
    marker_value(s, continuation_key(), CaptureClass::NonQuote)
}

pub open spec fn spec_scheduled_start(s: Seq<char>) -> Option<Seq<char>> {
    marker_value(s, scheduled_key(), CaptureClass::NonQuote)
}

pub open spec fn spec_client_version(s: Seq<char>) -> Option<Seq<char>> {
    marker_value(s, client_version_key(), CaptureClass::VersionChars)
}

pub open spec fn spec_video_id(s: Seq<char>) -> Option<Seq<char>> {
    triple_value(s, link_open(), rel_canonical(), href_watch())
}

/// The last two resolution steps, shared by the live and the scheduled
/// branch: the client version and the canonical video identifier.
pub open spec fn spec_resolve_tail(
    s: Seq<char>,
    api_key: Seq<char>,
    continuation: Option<Seq<char>>,
    scheduled_start_time: Option<Seq<char>>,
    stream_type: StreamType,
) -> Result<SessionInfoView, SessionResolutionError> {
    match spec_client_version(s) {
        None => Err(SessionResolutionError::MissingClientVersion),
        Some(client_version) => match spec_video_id(s) {
            None => Err(SessionResolutionError::MissingVideoId),
            Some(video_id) => Ok(
                SessionInfoView {
                    is_replay: None,
                    api_key,
                    stream_type,
                    continuation,
                    scheduled_start_time,
                    client_version,
                    video_id,
                },
            ),
        },
    }
}

/// What resolving a page's markup yields: the session parameters, or the
/// first failure in the fixed evaluation order (replay flag, API key,
/// continuation or scheduled start, client version, video identifier).
pub open spec fn spec_resolve(s: Seq<char>) -> Result<SessionInfoView, SessionResolutionError> {
    if replay_found(s) {
        Err(SessionResolutionError::ReplayNotSupported)
    } else {
        match spec_api_key(s) {
            None => Err(SessionResolutionError::MissingApiKey),
            Some(api_key) => {
                if spec_continuation(s) is Some {
                    spec_resolve_tail(
                        s,
                        api_key,
                        spec_continuation(s),
                        None,
                        StreamType::Live,
                    )
                } else if spec_scheduled_start(s) is Some {
                    spec_resolve_tail(
                        s,
                        api_key,
                        None,
                        spec_scheduled_start(s),
                        StreamType::Scheduled,
                    )
                } else {
                    Err(SessionResolutionError::MissingContinuation)
                }
            },
        }
    }
}

/// Scans the markup of a video page for the five session markers and
/// builds the session parameters, or reports the first missing or
/// contradictory marker.
pub fn resolve_session(markup: &str) -> (r: Result<SessionInfo, SessionResolutionError>)
    ensures
        match r {
            Ok(info) => spec_resolve(markup@) == Ok::<SessionInfoView, SessionResolutionError>(
                info.deep_view(),
            ),
            Err(e) => spec_resolve(markup@) == Err::<SessionInfoView, SessionResolutionError>(e),
        },
{
    proof {
        reveal_strlit("\"isReplay\"");
        reveal_strlit("true");
        reveal_strlit("\"INNERTUBE_API_KEY\"");
        reveal_strlit("\"continuation\"");
        reveal_strlit("\"scheduledStartTime\"");
        reveal_strlit("\"clientVersion\"");
        reveal_strlit("<link");
        reveal_strlit("rel=\"canonical\"");
        reveal_strlit("href=\"https://www.youtube.com/watch?v=");
    }
    if find_flag(markup, "\"isReplay\"", "true") {
        return Err(SessionResolutionError::ReplayNotSupported);
    }
    let api_key = match find_marker(markup, "\"INNERTUBE_API_KEY\"", CaptureClass::NonQuote) {
        Some(k) => k,
        None => {
            return Err(SessionResolutionError::MissingApiKey);
        },
    };
    let continuation = find_marker(markup, "\"continuation\"", CaptureClass::NonQuote);
    let stream_type: StreamType;
    let scheduled_start_time: Option<String>;
    if continuation.is_some() {
        stream_type = StreamType::Live;
        scheduled_start_time = None;
    } else {
        let sched = find_marker(markup, "\"scheduledStartTime\"", CaptureClass::NonQuote);
        if sched.is_some() {
            stream_type = StreamType::Scheduled;
            scheduled_start_time = sched;
        } else {
            return Err(SessionResolutionError::MissingContinuation);
        }
    }
    let client_version = match find_marker(markup, "\"clientVersion\"", CaptureClass::VersionChars) {
        Some(v) => v,
        None => {
            return Err(SessionResolutionError::MissingClientVersion);
        },
    };
    let video_id = match find_triple(
        markup,
        "<link",
        "rel=\"canonical\"",
        "href=\"https://www.youtube.com/watch?v=",
    ) {
        Some(v) => v,
        None => {
            return Err(SessionResolutionError::MissingVideoId);
        },
    };
    Ok(
        SessionInfo {
            is_replay: None,
            api_key,
            stream_type,
            continuation,
            scheduled_start_time,
            client_version,
            video_id,
        },
    )
}

/// The invariant of a successfully resolved session: both required
/// parameters populated, no replay, and exactly one of the continuation
/// cursor and the scheduled-start time present, agreeing with the stream
/// type.
pub open spec fn session_wf(v: SessionInfoView) -> bool {
    &&& v.api_key.len() > 0
    &&& v.client_version.len() > 0
    &&& v.video_id.len() > 0
    &&& v.is_replay != Some(true)
    &&& (v.stream_type == StreamType::Live <==> v.continuation is Some)
    &&& (v.stream_type == StreamType::Scheduled <==> v.scheduled_start_time is Some)
}

/// Every session that resolution produces satisfies the invariant.
pub proof fn lemma_resolve_wf(s: Seq<char>)
    ensures
        match spec_resolve(s) {
            Ok(v) => session_wf(v),
            Err(_) => true,
        },
{
    reveal_strlit("rel=\"canonical\"");
    reveal_strlit("href=\"https://www.youtube.com/watch?v=");
    crate::scan::lemma_marker_value_nonempty(s, api_key_key(), CaptureClass::NonQuote, 0);
    crate::scan::lemma_marker_value_nonempty(s, client_version_key(), CaptureClass::VersionChars, 0);
    crate::scan::lemma_triple_value_nonempty(s, link_open(), rel_canonical(), href_watch(), 0);
}

/// When all five markers are present and the replay flag is not, resolution
/// succeeds and the stream type is determined solely by the presence of the
/// continuation marker.
pub proof fn lemma_stream_type_by_markers(s: Seq<char>)
    requires
        !replay_found(s),
        spec_api_key(s) is Some,
        spec_continuation(s) is Some || spec_scheduled_start(s) is Some,
        spec_client_version(s) is Some,
        spec_video_id(s) is Some,
    ensures
        match spec_resolve(s) {
            Ok(v) => {
                &&& v.stream_type == (if spec_continuation(s) is Some {
                    StreamType::Live
                } else {
                    StreamType::Scheduled
                })
                &&& Some(v.api_key) == spec_api_key(s)
                &&& Some(v.client_version) == spec_client_version(s)
                &&& Some(v.video_id) == spec_video_id(s)
            },
            Err(_) => false,
        },
{
}

/// A replay page is rejected no matter which other markers are present.
pub proof fn lemma_replay_rejected(s: Seq<char>)
    requires
        replay_found(s),
    ensures
        spec_resolve(s) == Err::<SessionInfoView, SessionResolutionError>(
            SessionResolutionError::ReplayNotSupported,
        ),
{
}

/// Resolution is a function of the markup alone: two resolutions of the
/// same markup yield field-identical results.
pub proof fn lemma_resolve_deterministic(
    s: Seq<char>,
    r1: Result<SessionInfoView, SessionResolutionError>,
    r2: Result<SessionInfoView, SessionResolutionError>,
)
    requires
        r1 == spec_resolve(s),
        r2 == spec_resolve(s),
    ensures
        r1 == r2,
{
}

} // verus!
