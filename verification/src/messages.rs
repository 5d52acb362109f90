//! Normalization of raw chat actions into the stable message model.
//!
//! A poll response delivers deeply nested, partially-typed chat actions.
//! This module models exactly the fields this core reads of them, and maps
//! each recognized text-message add-action to a flat [`NormalizedMessage`],
//! masking every absent field with a documented default.  Malformed entries
//! never fail normalization: an unrecognized action is simply omitted.

use vstd::prelude::*;

verus! {

/// One segment of a chat message body.
#[derive(Debug, Clone, PartialEq, Eq)]
pub enum MessageRun {
    /// A literal text run; contributes its text verbatim.
    Text(String),
    /// An inline emoji: the first thumbnail URL of its image and its
    /// accessibility label, either of which the payload may omit.
    Emoji { url: Option<String>, name: Option<String> },
    /// A run of a shape this core does not recognize; contributes nothing.
    Unrecognized,
}

pub enum MessageRunView {
    Text(Seq<char>),
    Emoji { url: Option<Seq<char>>, name: Option<Seq<char>> },
    Unrecognized,
}

impl DeepView for MessageRun {
    type V = MessageRunView;

    open spec fn deep_view(&self) -> MessageRunView {
        match self {
            MessageRun::Text(t) => MessageRunView::Text(t@),
            MessageRun::Emoji { url, name } => MessageRunView::Emoji {
                url: url.deep_view(),
                name: name.deep_view(),
            },
            MessageRun::Unrecognized => MessageRunView::Unrecognized,
        }
    }
}

/// One author badge: the first image URL of its custom thumbnail, when the
/// badge carries one.  A badge without a thumbnail URL is skipped.
#[derive(Debug, Clone, PartialEq, Eq)]
pub struct Badge {
    pub thumbnail_url: Option<String>,
}

pub struct BadgeView {
    pub thumbnail_url: Option<Seq<char>>,
}

impl DeepView for Badge {
    type V = BadgeView;

    open spec fn deep_view(&self) -> BadgeView {
        BadgeView { thumbnail_url: self.thumbnail_url.deep_view() }
    }
}

/// The recognized text-message payload of an add-chat-item action.  Every
/// field the wire format may omit is optional here; normalization masks
/// absence with defaults.
#[derive(Debug, Clone, PartialEq, Eq)]
pub struct TextMessage {
    pub author_name: Option<String>,
    pub author_external_channel_id: Option<String>,
    pub author_badges: Vec<Badge>,
    pub runs: Vec<MessageRun>,
    pub timestamp_usec: Option<String>,
    pub tracking_params: Option<String>,
}

pub struct TextMessageView {
    pub author_name: Option<Seq<char>>,
    pub author_external_channel_id: Option<Seq<char>>,
    pub author_badges: Seq<BadgeView>,
    pub runs: Seq<MessageRunView>,
    pub timestamp_usec: Option<Seq<char>>,
    pub tracking_params: Option<Seq<char>>,
}

impl DeepView for TextMessage {
    type V = TextMessageView;

    open spec fn deep_view(&self) -> TextMessageView {
        TextMessageView {
            author_name: self.author_name.deep_view(),
            author_external_channel_id: self.author_external_channel_id.deep_view(),
            author_badges: self.author_badges.deep_view(),
            runs: self.runs.deep_view(),
            timestamp_usec: self.timestamp_usec.deep_view(),
            tracking_params: self.tracking_params.deep_view(),
        }
    }
}

/// One server-pushed chat event, reduced to what this core reads of it.
#[derive(Debug, Clone, PartialEq, Eq)]
pub struct RawChatAction {
    /// The envelope carried a client-scoped identity field.
    pub has_client_id: bool,
    /// The nested text-message payload, when the action is a recognized
    /// text-message add-action.
    pub text_message: Option<TextMessage>,
}

pub struct RawChatActionView {
    pub has_client_id: bool,
    pub text_message: Option<TextMessageView>,
}

impl DeepView for RawChatAction {
    type V = RawChatActionView;

    open spec fn deep_view(&self) -> RawChatActionView {
        RawChatActionView {
            has_client_id: self.has_client_id,
            text_message: self.text_message.deep_view(),
        }
    }
}

/// The stable output record handed to the external consumer.
#[derive(Debug, Clone, PartialEq, Eq)]
pub struct NormalizedMessage {
    pub author_id: String,
    pub author_name: String,
    pub author_badges: Vec<String>,
    pub message: String,
    /// Reserved for a later protocol version; always empty here.
    pub message_emotes: Vec<String>,
    pub timestamp: String,
    pub tracking_params: String,
}

#[verifier::ext_equal]
pub struct NormalizedMessageView {
    pub author_id: Seq<char>,
    pub author_name: Seq<char>,
    pub author_badges: Seq<Seq<char>>,
    pub message: Seq<char>,
    pub message_emotes: Seq<Seq<char>>,
    pub timestamp: Seq<char>,
    pub tracking_params: Seq<char>,
}

impl DeepView for NormalizedMessage {
    type V = NormalizedMessageView;

    open spec fn deep_view(&self) -> NormalizedMessageView {
        NormalizedMessageView {
            author_id: self.author_id@,
            author_name: self.author_name@,
            author_badges: self.author_badges.deep_view(),
            message: self.message@,
            message_emotes: self.message_emotes.deep_view(),
            timestamp: self.timestamp@,
            tracking_params: self.tracking_params@,
        }
    }
}

pub open spec fn or_default(v: Option<Seq<char>>, d: Seq<char>) -> Seq<char> {
    match v {
        Some(s) => s,
        None => d,
    }
}

pub open spec fn unknown_author_id() -> Seq<char> {
    "Unknown Author ID"@
}

pub open spec fn unknown_author() -> Seq<char> {
    "Unknown Author"@
}

pub open spec fn unknown_timestamp() -> Seq<char> {
    "Unknown Timestamp"@
}

pub open spec fn unknown_tracking_params() -> Seq<char> {
    "Unknown Tracking Params"@
}

pub open spec fn unknown_emoji() -> Seq<char> {
    "Unknown Emoji"@
}

pub open spec fn unknown_emoji_url() -> Seq<char> {
    "Unknown Emoji URL"@
}

/// The inline image tag synthesized for an emoji run.  Its exact shape is
/// part of the output contract with downstream renderers.
pub open spec fn spec_img_tag(name: Seq<char>, url: Seq<char>) -> Seq<char> {
    "<img id=\""@ + name + "\" src=\""@ + url + "\" alt=\""@ + name + "\" />"@
}

/// What one run contributes to the message body, if anything.
pub open spec fn spec_render_run(r: MessageRunView) -> Option<Seq<char>> {
    match r {
        MessageRunView::Text(t) => Some(t),
        MessageRunView::Emoji { url, name } => Some(
            spec_img_tag(or_default(name, unknown_emoji()), or_default(url, unknown_emoji_url())),
        ),
        MessageRunView::Unrecognized => None,
    }
}

/// The rendered pieces of a run list, in run order.
pub open spec fn spec_rendered_runs(runs: Seq<MessageRunView>) -> Seq<Seq<char>>
    decreases runs.len(),
{
    if runs.len() == 0 {
        Seq::empty()
    } else {
        let rest = spec_rendered_runs(runs.drop_last());
        match spec_render_run(runs.last()) {
            Some(p) => rest.push(p),
            None => rest,
        }
    }
}

/// Pieces joined with a single space, in order.
pub open spec fn spec_join_space(parts: Seq<Seq<char>>) -> Seq<char>
    decreases parts.len(),
{
    if parts.len() == 0 {
        Seq::empty()
    } else if parts.len() == 1 {
        parts[0]
    } else {
        spec_join_space(parts.drop_last()) + " "@ + parts.last()
    }
}

/// The message body: rendered runs joined with single spaces.
pub open spec fn spec_message_text(runs: Seq<MessageRunView>) -> Seq<char> {
    spec_join_space(spec_rendered_runs(runs))
}

/// The badge thumbnail URLs, in badge order, badges without one skipped.
pub open spec fn spec_badge_urls(badges: Seq<BadgeView>) -> Seq<Seq<char>>
    decreases badges.len(),
{
    if badges.len() == 0 {
        Seq::empty()
    } else {
        let rest = spec_badge_urls(badges.drop_last());
        match badges.last().thumbnail_url {
            Some(u) => rest.push(u),
            None => rest,
        }
    }
}

/// The normalized record of one recognized text-message payload.
pub open spec fn spec_normalize_message(m: TextMessageView) -> NormalizedMessageView {
    NormalizedMessageView {
        author_id: or_default(m.author_external_channel_id, unknown_author_id()),
        author_name: or_default(m.author_name, unknown_author()),
        author_badges: spec_badge_urls(m.author_badges),
        message: spec_message_text(m.runs),
        message_emotes: Seq::empty(),
        timestamp: or_default(m.timestamp_usec, unknown_timestamp()),
        tracking_params: or_default(m.tracking_params, unknown_tracking_params()),
    }
}

/// The actions that carry a client-scoped identity, in order.
pub open spec fn spec_preprocess(actions: Seq<RawChatActionView>) -> Seq<RawChatActionView>
    decreases actions.len(),
{
    if actions.len() == 0 {
        Seq::empty()
    } else {
        let rest = spec_preprocess(actions.drop_last());
        if actions.last().has_client_id {
            rest.push(actions.last())
        } else {
            rest
        }
    }
}

/// The normalized records of the recognized text-message payloads among
/// `actions`, in order, without the identity pre-filter.
pub open spec fn spec_parse_messages(actions: Seq<RawChatActionView>) -> Seq<NormalizedMessageView>
    decreases actions.len(),
{
    if actions.len() == 0 {
        Seq::empty()
    } else {
        let rest = spec_parse_messages(actions.drop_last());
        match actions.last().text_message {
            Some(m) => rest.push(spec_normalize_message(m)),
            None => rest,
        }
    }
}

/// The whole normalization pipeline: keep the actions with a client-scoped
/// identity, then map each recognized text-message payload to its record.
pub open spec fn spec_normalize(actions: Seq<RawChatActionView>) -> Seq<NormalizedMessageView>
    decreases actions.len(),
{
    if actions.len() == 0 {
        Seq::empty()
    } else {
        let rest = spec_normalize(actions.drop_last());
        let a = actions.last();
        if a.has_client_id {
            match a.text_message {
                Some(m) => rest.push(spec_normalize_message(m)),
                None => rest,
            }
        } else {
            rest
        }
    }
}

/// Normalization is the identity pre-filter followed by payload parsing:
/// the fused pipeline equals the two stages composed.
pub proof fn lemma_normalize_is_parse_of_preprocess(actions: Seq<RawChatActionView>)
    ensures
        spec_normalize(actions) == spec_parse_messages(spec_preprocess(actions)),
    decreases actions.len(),
{
    if actions.len() == 0 {
    } else {
        let rest = actions.drop_last();
        let a = actions.last();
        lemma_normalize_is_parse_of_preprocess(rest);
        if a.has_client_id {
            assert(spec_preprocess(actions) == spec_preprocess(rest).push(a));
            assert(spec_preprocess(rest).push(a).drop_last() =~= spec_preprocess(rest));
        }
    }
}

/// Every action kept by the identity pre-filter carries a client-scoped
/// identity.
pub proof fn lemma_preprocess_identified(actions: Seq<RawChatActionView>, i: int)
    requires
        0 <= i < spec_preprocess(actions).len(),
    ensures
        spec_preprocess(actions)[i].has_client_id,
    decreases actions.len(),
{
    if actions.len() == 0 {
    } else {
        let rest = actions.drop_last();
        if i < spec_preprocess(rest).len() {
            lemma_preprocess_identified(rest, i);
        }
    }
}

/// Actions lacking a client-scoped identity are excluded from the output:
/// dropping them changes nothing, and the output is never longer than the
/// filtered input.
pub proof fn lemma_normalize_excludes_unidentified(actions: Seq<RawChatActionView>)
    ensures
        spec_normalize(actions) == spec_normalize(spec_preprocess(actions)),
        spec_normalize(actions).len() <= spec_preprocess(actions).len(),
    decreases actions.len(),
{
    if actions.len() == 0 {
    } else {
        let rest = actions.drop_last();
        let a = actions.last();
        lemma_normalize_excludes_unidentified(rest);
        if a.has_client_id {
            assert(spec_preprocess(actions) == spec_preprocess(rest).push(a));
            assert(spec_preprocess(rest).push(a).drop_last() =~= spec_preprocess(rest));
        }
    }
}

/// A literal-text run followed by an emoji run renders as the text, one
/// space, then the synthesized image tag, in that order.
pub proof fn lemma_text_then_emoji(t: Seq<char>, url: Option<Seq<char>>, name: Option<Seq<char>>)
    ensures
        spec_message_text(
            seq![MessageRunView::Text(t), MessageRunView::Emoji { url, name }],
        ) == t + " "@ + spec_img_tag(
            or_default(name, unknown_emoji()),
            or_default(url, unknown_emoji_url()),
        ),
{
    reveal_with_fuel(spec_rendered_runs, 3);
    reveal_with_fuel(spec_join_space, 3);
    let runs = seq![MessageRunView::Text(t), MessageRunView::Emoji { url, name }];
    let tag = spec_img_tag(or_default(name, unknown_emoji()), or_default(url, unknown_emoji_url()));
    assert(runs.drop_last() =~= seq![MessageRunView::Text(t)]);
    assert(spec_rendered_runs(Seq::<MessageRunView>::empty()) =~= Seq::<Seq<char>>::empty());
    assert(seq![MessageRunView::Text(t)].drop_last() =~= Seq::<MessageRunView>::empty());
    assert(spec_rendered_runs(seq![MessageRunView::Text(t)]) =~= seq![t]);
    assert(spec_rendered_runs(runs) =~= seq![t, tag]);
    assert(seq![t, tag].drop_last() =~= seq![t]);
    assert(spec_join_space(seq![t, tag]) == spec_join_space(seq![t]) + " "@ + tag);
}

/// An action payload without an author name normalizes to the default
/// author name.
pub proof fn lemma_missing_author_name(m: TextMessageView)
    requires
        m.author_name is None,
    ensures
        spec_normalize_message(m).author_name == unknown_author(),
{
}

fn clone_or_default(v: &Option<String>, d: &str) -> (r: String)
    ensures
        r@ == or_default(v.deep_view(), d@),
{
    match v {
        Some(s) => s.clone(),
        None => d.to_owned(),
    }
}

/// Builds the inline image tag for an emoji run.
fn render_img_tag(name: &str, url: &str) -> (r: String)
    ensures
        r@ == spec_img_tag(name@, url@),
{
    let mut t = "<img id=\"".to_owned();
    t.append(name);
    t.append("\" src=\"");
    t.append(url);
    t.append("\" alt=\"");
    t.append(name);
    t.append("\" />");
    proof {
        assert(t@ =~= spec_img_tag(name@, url@));
    }
    t
}

/// Joins the rendered pieces with a single space separator.
fn join_space(parts: &Vec<String>) -> (r: String)
    ensures
        r@ == spec_join_space(parts.deep_view()),
{
    let ghost pv = parts.deep_view();
    let mut out = String::new();
    let mut j: usize = 0;
    while j < parts.len()
        invariant
            pv == parts.deep_view(),
            j <= parts.len(),
            pv.len() == parts.len(),
            out@ == spec_join_space(pv.take(j as int)),
        decreases parts.len() - j,
    {
        if j > 0 {
            out.append(" ");
        }
        out.append(parts[j].as_str());
        proof {
            assert(pv.take(j + 1).drop_last() =~= pv.take(j as int));
            assert(pv.take(j + 1).last() == pv[j as int]);
            if j == 0 {
                assert(out@ =~= spec_join_space(pv.take(1)));
            } else {
                assert(out@ =~= spec_join_space(pv.take(j + 1)));
            }
        }
        j += 1;
    }
    proof {
        assert(pv.take(parts.len() as int) =~= pv);
    }
    out
}

/// Renders the ordered run list into the message body.
fn render_runs(runs: &Vec<MessageRun>) -> (r: String)
    ensures
        r@ == spec_message_text(runs.deep_view()),
{
    let ghost rv = runs.deep_view();
    let mut parts: Vec<String> = Vec::new();
    let mut idx: usize = 0;
    while idx < runs.len()
        invariant
            rv == runs.deep_view(),
            idx <= runs.len(),
            rv.len() == runs.len(),
            parts.deep_view() == spec_rendered_runs(rv.take(idx as int)),
        decreases runs.len() - idx,
    {
        let piece: Option<String> = match &runs[idx] {
            MessageRun::Text(t) => Some(t.clone()),
            MessageRun::Emoji { url, name } => {
                let n = clone_or_default(name, "Unknown Emoji");
                let u = clone_or_default(url, "Unknown Emoji URL");
                Some(render_img_tag(n.as_str(), u.as_str()))
            },
            MessageRun::Unrecognized => None,
        };
        proof {
            assert(rv.take(idx + 1).drop_last() =~= rv.take(idx as int));
            assert(rv.take(idx + 1).last() == rv[idx as int]);
        }
        match piece {
            Some(p) => {
                parts.push(p);
                assert(parts.deep_view() =~= spec_rendered_runs(rv.take(idx + 1)));
            },
            None => {
                assert(parts.deep_view() =~= spec_rendered_runs(rv.take(idx + 1)));
            },
        }
        idx += 1;
    }
    proof {
        assert(rv.take(runs.len() as int) =~= rv);
    }
    join_space(&parts)
}

/// Collects the badge thumbnail URLs in badge order.
fn badge_urls(badges: &Vec<Badge>) -> (r: Vec<String>)
    ensures
        r.deep_view() == spec_badge_urls(badges.deep_view()),
{
    let ghost bv = badges.deep_view();
    let mut out: Vec<String> = Vec::new();
    let mut idx: usize = 0;
    while idx < badges.len()
        invariant
            bv == badges.deep_view(),
            idx <= badges.len(),
            bv.len() == badges.len(),
            out.deep_view() == spec_badge_urls(bv.take(idx as int)),
        decreases badges.len() - idx,
    {
        proof {
            assert(bv.take(idx + 1).drop_last() =~= bv.take(idx as int));
            assert(bv.take(idx + 1).last() == bv[idx as int]);
        }
        match &badges[idx].thumbnail_url {
            Some(u) => {
                out.push(u.clone());
                assert(out.deep_view() =~= spec_badge_urls(bv.take(idx + 1)));
            },
            None => {
                assert(out.deep_view() =~= spec_badge_urls(bv.take(idx + 1)));
            },
        }
        idx += 1;
    }
    proof {
        assert(bv.take(badges.len() as int) =~= bv);
    }
    out
}

/// Normalizes one recognized text-message payload, masking each absent
/// field with its documented default.
pub fn normalize_message(m: &TextMessage) -> (r: NormalizedMessage)
    ensures
        r.deep_view() == spec_normalize_message(m.deep_view()),
{
    let r = NormalizedMessage {
        author_id: clone_or_default(&m.author_external_channel_id, "Unknown Author ID"),
        author_name: clone_or_default(&m.author_name, "Unknown Author"),
        author_badges: badge_urls(&m.author_badges),
        message: render_runs(&m.runs),
        message_emotes: Vec::new(),
        timestamp: clone_or_default(&m.timestamp_usec, "Unknown Timestamp"),
        tracking_params: clone_or_default(&m.tracking_params, "Unknown Tracking Params"),
    };
    proof {
        assert(r.deep_view() =~= spec_normalize_message(m.deep_view()));
    }
    r
}

/// Normalizes a batch of raw chat actions: actions without a client-scoped
/// identity are discarded, unrecognized actions are skipped, and each
/// recognized text-message payload yields one record, in server order.
pub fn normalize(actions: &Vec<RawChatAction>) -> (r: Vec<NormalizedMessage>)
    ensures
        r.deep_view() == spec_normalize(actions.deep_view()),
{
    let ghost av = actions.deep_view();
    let mut out: Vec<NormalizedMessage> = Vec::new();
    let mut idx: usize = 0;
    while idx < actions.len()
        invariant
            av == actions.deep_view(),
            idx <= actions.len(),
            av.len() == actions.len(),
            out.deep_view() == spec_normalize(av.take(idx as int)),
        decreases actions.len() - idx,
    {
        proof {
            assert(av.take(idx + 1).drop_last() =~= av.take(idx as int));
            assert(av.take(idx + 1).last() == av[idx as int]);
        }
        if actions[idx].has_client_id {
            match &actions[idx].text_message {
                Some(m) => {
                    out.push(normalize_message(m));
                    assert(out.deep_view() =~= spec_normalize(av.take(idx + 1)));
                },
                None => {
                    assert(out.deep_view() =~= spec_normalize(av.take(idx + 1)));
                },
            }
        } else {
            assert(out.deep_view() =~= spec_normalize(av.take(idx + 1)));
        }
        idx += 1;
    }
    proof {
        assert(av.take(actions.len() as int) =~= av);
    }
    out
}

} // verus!
