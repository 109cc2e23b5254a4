//! WebRTC signaling: the messages exchanged with a browser, and the
//! negotiation that turns an offer into an answer.
use crate::media::{create_api, RtcConfiguration};
use serde_json::Value;
use std::sync::Arc;
use uuid::Uuid;
use vstd::prelude::*;
use webrtc::api::API;
use webrtc::peer_connection::sdp::sdp_type::RTCSdpType;
use webrtc::peer_connection::sdp::session_description::RTCSessionDescription;
use webrtc::track::track_local::track_local_static_sample::TrackLocalStaticSample;

verus! {

/// A JSON value.
#[verifier::external_type_specification]
#[verifier::external_body]
pub struct ExValue(serde_json::Value);

/// What a JSON value holds, written as JSON text without spaces.
pub uninterp spec fn json_text(value: Value) -> Seq<char>;

/// What reading a session description out of JSON text gives: its type and
/// its SDP, or the text of the error.
pub uninterp spec fn parsed_description(json: Seq<char>) -> Result<
    (SdpType, Seq<char>),
    Seq<char>,
>;

/// A session description of the given type and SDP as JSON text.
pub uninterp spec fn description_json(sdp_type: SdpType, sdp: Seq<char>) -> Seq<char>;

/// The part that a session description plays in a negotiation.
#[derive(Debug, Clone, Copy, PartialEq, Eq, Structural)]
pub enum SdpType {
    Unspecified,
    Offer,
    Pranswer,
    Answer,
    Rollback,
}

/// A session description.
#[derive(Debug)]
pub struct Description {
    pub sdp_type: SdpType,
    pub sdp: String,
}

impl View for Description {
    type V = (SdpType, Seq<char>);

    open spec fn view(&self) -> (SdpType, Seq<char>) {
        (self.sdp_type, self.sdp@)
    }
}

/// The result of reading a description, as plain values.
pub open spec fn reading(parsed: Result<Description, String>) -> Result<
    (SdpType, Seq<char>),
    Seq<char>,
> {
    match parsed {
        Ok(description) => Ok(description@),
        Err(error) => Err(error@),
    }
}

/// A JSON value out of which this description is read.
pub open spec fn reads_as(json: Value, description: (SdpType, Seq<char>)) -> bool {
    parsed_description(json_text(json)) == Ok::<(SdpType, Seq<char>), Seq<char>>(description)
}

/// `serde_json::from_value` into WebRTC's session description: what it gives
/// depends on what the JSON value holds.
#[verifier::external_body]
fn parse_description(json: Value) -> (parsed: Result<Description, String>)
    ensures
        reading(parsed) == parsed_description(json_text(json)),
{
    let description = serde_json::from_value::<RTCSessionDescription>(json).map_err(
        |e| e.to_string(),
    )?;
    let sdp_type = match description.sdp_type {
        RTCSdpType::Unspecified => SdpType::Unspecified,
        RTCSdpType::Offer => SdpType::Offer,
        RTCSdpType::Pranswer => SdpType::Pranswer,
        RTCSdpType::Answer => SdpType::Answer,
        RTCSdpType::Rollback => SdpType::Rollback,
    };
    Ok(Description { sdp_type, sdp: description.sdp })
}

/// `serde_json::to_value` on WebRTC's session description: it succeeds, its
/// result depends on the description's type and SDP, and reading the result
/// gives both back.
#[verifier::external_body]
fn encode_description(description: Description) -> (json: Result<Value, String>)
    ensures
        json is Ok,
        json_text(json->Ok_0) == description_json(description.sdp_type, description.sdp@),
        reads_as(json->Ok_0, description@),
{
    let mut plain = RTCSessionDescription::default();
    plain.sdp = description.sdp;
    plain.sdp_type = match description.sdp_type {
        SdpType::Unspecified => RTCSdpType::Unspecified,
        SdpType::Offer => RTCSdpType::Offer,
        SdpType::Pranswer => RTCSdpType::Pranswer,
        SdpType::Answer => RTCSdpType::Answer,
        SdpType::Rollback => RTCSdpType::Rollback,
    };
    serde_json::to_value(&plain).map_err(|e| e.to_string())
}

/// A lower case hexadecimal digit.
pub open spec fn is_hex_digit(c: char) -> bool {
    '0' <= c <= '9' || 'a' <= c <= 'f'
}

/// A random UUID in its usual notation: groups of eight, four, four, four and
/// twelve hexadecimal digits joined by hyphens, version four, and the variant
/// that goes with it.
pub open spec fn is_session_id(id: Seq<char>) -> bool {
    &&& id.len() == 36
    &&& forall|i: int|
        0 <= i < 36 ==> if i == 8 || i == 13 || i == 18 || i == 23 {
            #[trigger] id[i] == '-'
        } else {
            is_hex_digit(id[i])
        }
    &&& id[14] == '4'
    &&& id[19] == '8' || id[19] == '9' || id[19] == 'a' || id[19] == 'b'
}

/// `Uuid::new_v4` in the notation of its `Display`. Which of the version four
/// UUIDs comes is left to the random number generator.
#[verifier::external_body]
pub(crate) fn new_session_id() -> (id: String)
    ensures
        is_session_id(id@),
{
    Uuid::new_v4().to_string()
}

/// A browser's request for a session.
#[derive(Debug)]
pub struct SessionRequest {
    /// The browser's session description.
    pub offer: Value,
}

/// The answer to a request for a session.
#[derive(Debug)]
pub struct SessionResponse {
    /// The element's session description.
    pub answer: Value,
    /// The id under which the session is known.
    pub session_id: String,
}

/// Why a request for a session was refused.
#[derive(Debug)]
pub struct SessionError(pub String);

/// How far a negotiation has come: what was last asked of the peer connection
/// and is not yet known to be done.
pub enum SessionPhase {
    Connecting { offer: Value, track: Arc<TrackLocalStaticSample> },
    AddingTrack { offer: Value },
    SettingRemoteDescription,
    CreatingAnswer,
    SettingLocalDescription,
    GatheringCandidates,
    ReadingLocalDescription,
    Finished,
}

/// What a negotiation asks for next.
pub enum SessionAction {
    /// Make a peer connection.
    Connect { api: API, config: RtcConfiguration },
    /// Add the track to the peer connection.
    AddTrack { track: Arc<TrackLocalStaticSample> },
    /// Set the browser's offer as the remote description.
    SetRemoteDescription { offer: Description },
    /// Create an answer.
    CreateAnswer,
    /// Set the created answer as the local description.
    SetLocalDescription { answer: Description },
    /// Wait until all candidates are gathered.
    GatherCandidates,
    /// Read the local description, which now names the candidates.
    ReadLocalDescription,
    /// Answer the browser.
    Reply(SessionResponse),
    /// Refuse the browser.
    Refuse(SessionError),
}

/// What became of an action.
pub enum SessionEvent {
    Succeeded,
    /// The answer was created.
    AnswerCreated(Description),
    /// It failed, with this error.
    Failed(String),
    /// The local description, if there is one.
    LocalDescription(Option<Description>),
}

/// Whether an event can follow on what a phase asked for. Creating an answer
/// and reading the local description have results of their own, and gathering
/// only ever ends.
pub open spec fn expects(phase: SessionPhase, event: SessionEvent) -> bool {
    match phase {
        SessionPhase::Connecting { .. }
        | SessionPhase::AddingTrack { .. }
        | SessionPhase::SettingRemoteDescription
        | SessionPhase::SettingLocalDescription => event is Succeeded || event is Failed,
        SessionPhase::CreatingAnswer => event is AnswerCreated || event is Failed,
        SessionPhase::GatheringCandidates => event is Succeeded,
        SessionPhase::ReadingLocalDescription => event is LocalDescription,
        SessionPhase::Finished => false,
    }
}

/// The negotiation ends with a refusal that gives this reason.
pub open spec fn refuses(step: (SessionPhase, SessionAction), reason: Seq<char>) -> bool {
    step.0 is Finished && (step.1 matches SessionAction::Refuse(error) && error.0@ == reason)
}

/// What follows on a WebRTC stack that was made, or on the failure to make it.
pub open spec fn connects(
    offer: Value,
    config: Seq<Seq<Seq<char>>>,
    track: Arc<TrackLocalStaticSample>,
    api: Result<API, String>,
    step: (SessionPhase, SessionAction),
) -> bool {
    match api {
        Ok(api) => step.0 == SessionPhase::Connecting { offer, track } && (step.1 matches
            SessionAction::Connect { api: used, config: asked } && used == api && asked@ == config),
        Err(error) => refuses(step, error@),
    }
}

/// What follows on the offer as it was read.
pub open spec fn follows_offer(
    parsed: Result<(SdpType, Seq<char>), Seq<char>>,
    step: (SessionPhase, SessionAction),
) -> bool {
    match parsed {
        Ok(description) => step.0 is SettingRemoteDescription && (step.1 matches
            SessionAction::SetRemoteDescription { offer } && offer@ == description),
        Err(error) => refuses(step, error),
    }
}

/// The negotiation ends with this answer, under some session id.
pub open spec fn replies(step: (SessionPhase, SessionAction), answer: (SdpType, Seq<char>)) -> bool {
    step.0 is Finished && (step.1 matches SessionAction::Reply(response) && {
        &&& json_text(response.answer) == description_json(answer.0, answer.1)
        &&& reads_as(response.answer, answer)
        &&& is_session_id(response.session_id@)
    })
}

/// How a negotiation goes on from a phase when an event comes.
pub open spec fn goes_on(
    phase: SessionPhase,
    event: SessionEvent,
    step: (SessionPhase, SessionAction),
) -> bool {
    match (phase, event) {
        (_, SessionEvent::Failed(error)) => refuses(step, error@),
        (SessionPhase::Connecting { offer, track }, _) => step.0 == SessionPhase::AddingTrack {
            offer,
        } && step.1 == SessionAction::AddTrack { track },
        (SessionPhase::AddingTrack { offer }, _) => follows_offer(
            parsed_description(json_text(offer)),
            step,
        ),
        (SessionPhase::SettingRemoteDescription, _) => step.0 is CreatingAnswer && step.1
            is CreateAnswer,
        (SessionPhase::CreatingAnswer, SessionEvent::AnswerCreated(answer)) => step.0
            is SettingLocalDescription && step.1 == SessionAction::SetLocalDescription { answer },
        (SessionPhase::SettingLocalDescription, _) => step.0 is GatheringCandidates && step.1
            is GatherCandidates,
        (SessionPhase::GatheringCandidates, _) => step.0 is ReadingLocalDescription && step.1
            is ReadLocalDescription,
        (_, SessionEvent::LocalDescription(Some(answer))) => replies(step, answer@),
        (_, _) => refuses(step, "Failed to get local description"@),
    }
}

fn refuse(reason: String) -> (step: (SessionPhase, SessionAction))
    ensures
        refuses(step, reason@),
{
    (SessionPhase::Finished, SessionAction::Refuse(SessionError(reason)))
}

/// Begins a negotiation with a WebRTC stack, or refuses it if there is none.
pub fn connect(
    request: SessionRequest,
    config: RtcConfiguration,
    track: Arc<TrackLocalStaticSample>,
    api: Result<API, String>,
) -> (step: (SessionPhase, SessionAction))
    ensures
        connects(request.offer, config@, track, api, step),
        api is Ok ==> (step.1 matches SessionAction::Connect { config: asked, .. } && asked
            == config),
{
    match api {
        Ok(api) => (
            SessionPhase::Connecting { offer: request.offer, track },
            SessionAction::Connect { api, config },
        ),
        Err(error) => refuse(error),
    }
}

/// Begins the negotiation that a browser asked for, about the track that it is
/// to receive.
pub fn handle_session_request(
    request: SessionRequest,
    config: RtcConfiguration,
    track: Arc<TrackLocalStaticSample>,
) -> (step: (SessionPhase, SessionAction))
    ensures
        step.1 matches SessionAction::Connect { api, .. } && connects(
            request.offer,
            config@,
            track,
            Ok(api),
            step,
        ),
        step.1 matches SessionAction::Connect { config: asked, .. } && asked == config,
{
    let api = create_api();
    connect(request, config, track, api)
}

/// Goes on with the offer as it was read.
pub fn set_offer(parsed: Result<Description, String>) -> (step: (SessionPhase, SessionAction))
    ensures
        follows_offer(reading(parsed), step),
        parsed matches Ok(offer) ==> step.0 is SettingRemoteDescription && step.1
            == (SessionAction::SetRemoteDescription { offer }),
        parsed matches Err(error) ==> step.0 is Finished && (step.1 matches SessionAction::Refuse(
            reason,
        ) && reason.0@ == error@),
{
    match parsed {
        Ok(offer) => (
            SessionPhase::SettingRemoteDescription,
            SessionAction::SetRemoteDescription { offer },
        ),
        Err(error) => refuse(error),
    }
}

/// Ends a negotiation with the encoded answer.
pub fn conclude(answer: Result<Value, String>, session_id: String) -> (step: (
    SessionPhase,
    SessionAction,
))
    ensures
        match answer {
            Ok(answer) => step.0 is Finished && step.1 == SessionAction::Reply(
                SessionResponse { answer, session_id },
            ),
            Err(error) => refuses(step, error@),
        },
{
    match answer {
        Ok(answer) => (
            SessionPhase::Finished,
            SessionAction::Reply(SessionResponse { answer, session_id }),
        ),
        Err(error) => refuse(error),
    }
}

impl SessionPhase {
    /// Goes on with a negotiation once it is known what became of the last
    /// action.
    pub fn advance(self, event: SessionEvent) -> (step: (SessionPhase, SessionAction))
        requires
            expects(self, event),
        ensures
            goes_on(self, event, step),
    {
        match event {
            SessionEvent::Failed(error) => refuse(error),
            SessionEvent::Succeeded => self.proceed(),
            SessionEvent::AnswerCreated(answer) => (
                SessionPhase::SettingLocalDescription,
                SessionAction::SetLocalDescription { answer },
            ),
            SessionEvent::LocalDescription(Some(answer)) => {
                let session_id = new_session_id();
                conclude(encode_description(answer), session_id)
            },
            SessionEvent::LocalDescription(None) => refuse(
                "Failed to get local description".to_owned(),
            ),
        }
    }

    fn proceed(self) -> (step: (SessionPhase, SessionAction))
        requires
            expects(self, SessionEvent::Succeeded),
        ensures
            goes_on(self, SessionEvent::Succeeded, step),
    {
        match self {
            SessionPhase::Connecting { offer, track } => (
                SessionPhase::AddingTrack { offer },
                SessionAction::AddTrack { track },
            ),
            SessionPhase::AddingTrack { offer } => set_offer(parse_description(offer)),
            SessionPhase::SettingRemoteDescription => (
                SessionPhase::CreatingAnswer,
                SessionAction::CreateAnswer,
            ),
            SessionPhase::SettingLocalDescription => (
                SessionPhase::GatheringCandidates,
                SessionAction::GatherCandidates,
            ),
            _ => (SessionPhase::ReadingLocalDescription, SessionAction::ReadLocalDescription),
        }
    }
}

/// How many actions a negotiation may still take.
pub open spec fn actions_left(phase: SessionPhase) -> nat {
    match phase {
        SessionPhase::Connecting { .. } => 7,
        SessionPhase::AddingTrack { .. } => 6,
        SessionPhase::SettingRemoteDescription => 5,
        SessionPhase::CreatingAnswer => 4,
        SessionPhase::SettingLocalDescription => 3,
        SessionPhase::GatheringCandidates => 2,
        SessionPhase::ReadingLocalDescription => 1,
        SessionPhase::Finished => 0,
    }
}

/// A negotiation ends: every event brings it closer to its end, which is a
/// reply or a refusal.
pub proof fn law_negotiation_ends(
    phase: SessionPhase,
    event: SessionEvent,
    step: (SessionPhase, SessionAction),
)
    requires
        expects(phase, event),
        goes_on(phase, event, step),
    ensures
        actions_left(step.0) < actions_left(phase),
        step.0 is Finished <==> step.1 is Reply || step.1 is Refuse,
{
}

/// A failure ends a negotiation at once, with a refusal that gives the
/// failure's own reason.
pub proof fn law_failure_refuses(
    phase: SessionPhase,
    error: String,
    step: (SessionPhase, SessionAction),
)
    requires
        goes_on(phase, SessionEvent::Failed(error), step),
    ensures
        refuses(step, error@),
{
}

/// A browser is answered only with what was read as the local description,
/// in a form out of which that description is read again.
pub proof fn law_reply_is_local_description(
    phase: SessionPhase,
    event: SessionEvent,
    step: (SessionPhase, SessionAction),
)
    requires
        expects(phase, event),
        goes_on(phase, event, step),
        step.1 is Reply,
    ensures
        phase is ReadingLocalDescription,
        event matches SessionEvent::LocalDescription(Some(answer)) && reads_as(
            step.1->Reply_0.answer,
            answer@,
        ),
        is_session_id(step.1->Reply_0.session_id@),
{
}

/// The step after this one follows on the event that came.
pub open spec fn proceeds(
    steps: Seq<(SessionPhase, SessionAction)>,
    events: Seq<SessionEvent>,
    i: int,
) -> bool {
    expects(steps[i].0, events[i]) && goes_on(steps[i].0, events[i], steps[i + 1])
}

/// The steps of a negotiation in which these events came, one after each step
/// but the last.
pub open spec fn negotiates(
    steps: Seq<(SessionPhase, SessionAction)>,
    events: Seq<SessionEvent>,
) -> bool {
    &&& steps.len() == events.len() + 1
    &&& forall|i: int| 0 <= i < events.len() ==> #[trigger] proceeds(steps, events, i)
}

/// A readable offer is answered if all that the negotiation asks for succeeds:
/// the browser is sent the track, the created answer is set unchanged, and the
/// local description that is then read is the reply.
pub proof fn law_successful_negotiation_replies(
    offer: Value,
    track: Arc<TrackLocalStaticSample>,
    steps: Seq<(SessionPhase, SessionAction)>,
    events: Seq<SessionEvent>,
)
    requires
        parsed_description(json_text(offer)) is Ok,
        steps[0].0 == (SessionPhase::Connecting { offer, track }),
        negotiates(steps, events),
        events.len() == 7,
        forall|i: int| 0 <= i < 7 ==> !((#[trigger] events[i]) is Failed),
        events[6] != SessionEvent::LocalDescription(None),
    ensures
        steps[1].1 == (SessionAction::AddTrack { track }),
        steps[2].1 matches SessionAction::SetRemoteDescription { offer: read } && Ok::<
            (SdpType, Seq<char>),
            Seq<char>,
        >(read@) == parsed_description(json_text(offer)),
        events[3] matches SessionEvent::AnswerCreated(answer) && steps[4].1
            == (SessionAction::SetLocalDescription { answer }),
        events[6] matches SessionEvent::LocalDescription(Some(answer)) && replies(
            steps[7],
            answer@,
        ),
{
    assert(proceeds(steps, events, 0));
    assert(proceeds(steps, events, 1));
    assert(proceeds(steps, events, 2));
    assert(proceeds(steps, events, 3));
    assert(proceeds(steps, events, 4));
    assert(proceeds(steps, events, 5));
    assert(proceeds(steps, events, 6));
}

/// Whatever came in a negotiation, a browser is answered only on a connection
/// to which the track was added.
pub proof fn law_answered_session_has_the_track(
    offer: Value,
    track: Arc<TrackLocalStaticSample>,
    steps: Seq<(SessionPhase, SessionAction)>,
    events: Seq<SessionEvent>,
)
    requires
        steps[0].0 == (SessionPhase::Connecting { offer, track }),
        negotiates(steps, events),
        events.len() > 0,
        steps.last().1 is Reply,
    ensures
        events[0] is Succeeded,
        steps[1].1 == (SessionAction::AddTrack { track }),
        events.len() > 1 && events[1] is Succeeded,
{
    assert(proceeds(steps, events, 0));
    if events.len() > 1 {
        assert(proceeds(steps, events, 1));
    }
    if events.len() > 2 {
        assert(proceeds(steps, events, 2));
    }
}

/// An unreadable offer is refused with the reader's own reason, though only
/// once the connection and its track are made.
pub proof fn law_unreadable_offer_is_refused(
    offer: Value,
    step: (SessionPhase, SessionAction),
)
    requires
        parsed_description(json_text(offer)) is Err,
        goes_on(SessionPhase::AddingTrack { offer }, SessionEvent::Succeeded, step),
    ensures
        refuses(step, parsed_description(json_text(offer))->Err_0),
{
}

/// Every offer that was read is set as the remote description as it is, and
/// one that was not is refused with the reader's whole reason.
pub proof fn law_a_read_offer_is_set(
    parsed: Result<Description, String>,
    step: (SessionPhase, SessionAction),
)
    requires
        call_ensures(set_offer, (parsed,), step),
    ensures
        match parsed {
            Ok(read) => step.0 is SettingRemoteDescription && (step.1 matches
                SessionAction::SetRemoteDescription { offer } && offer.sdp_type == read.sdp_type
                && offer.sdp@ == read.sdp@),
            Err(error) => step.0 is Finished && (step.1 matches SessionAction::Refuse(reason)
                && reason.0@ == error@),
        },
{
}

/// Every readable offer, whatever it holds, is set as the remote description
/// once the track was added, with the very type and text that were read.
pub proof fn law_every_readable_offer_is_set(
    offer: Value,
    sdp_type: SdpType,
    sdp: Seq<char>,
    step: (SessionPhase, SessionAction),
)
    requires
        parsed_description(json_text(offer)) == Ok::<(SdpType, Seq<char>), Seq<char>>(
            (sdp_type, sdp),
        ),
        call_ensures(
            SessionPhase::advance,
            (SessionPhase::AddingTrack { offer }, SessionEvent::Succeeded),
            step,
        ),
    ensures
        step.0 is SettingRemoteDescription,
        step.1 matches SessionAction::SetRemoteDescription { offer: set } && set.sdp_type
            == sdp_type && set.sdp@ == sdp,
{
}

/// A negotiation is refused for three reasons only, and each is given in full:
/// what was asked for failed, the offer cannot be read, or there is no local
/// description.
pub proof fn law_what_is_refused(
    phase: SessionPhase,
    event: SessionEvent,
    step: (SessionPhase, SessionAction),
)
    requires
        expects(phase, event),
        call_ensures(SessionPhase::advance, (phase, event), step),
    ensures
        step.1 is Refuse <==> {
            ||| event is Failed
            ||| phase is AddingTrack && parsed_description(json_text(phase->AddingTrack_offer))
                is Err
            ||| event == SessionEvent::LocalDescription(None)
        },
        step.1 matches SessionAction::Refuse(reason) ==> {
            &&& step.0 is Finished
            &&& event matches SessionEvent::Failed(error) ==> reason.0@ == error@
            &&& event is Succeeded ==> reason.0@ == parsed_description(
                json_text(phase->AddingTrack_offer),
            )->Err_0
            &&& event is LocalDescription ==> reason.0@ == "Failed to get local description"@
        },
{
}

/// Each success leads to what comes next: the track is added, the offer set,
/// an answer created and set as it was created, the candidates gathered, and
/// the local description read and sent as it was read.
pub proof fn law_what_a_success_leads_to(
    phase: SessionPhase,
    event: SessionEvent,
    step: (SessionPhase, SessionAction),
)
    requires
        expects(phase, event),
        call_ensures(SessionPhase::advance, (phase, event), step),
        !(step.1 is Refuse),
    ensures
        match phase {
            SessionPhase::Connecting { offer, track } => step.0 == (SessionPhase::AddingTrack {
                offer,
            }) && step.1 == (SessionAction::AddTrack { track }),
            SessionPhase::AddingTrack { .. } => step.0 is SettingRemoteDescription && step.1
                is SetRemoteDescription,
            SessionPhase::SettingRemoteDescription => step.0 is CreatingAnswer && step.1
                is CreateAnswer,
            SessionPhase::CreatingAnswer => step.0 is SettingLocalDescription && (event matches
                SessionEvent::AnswerCreated(created) && step.1
                == (SessionAction::SetLocalDescription { answer: created })),
            SessionPhase::SettingLocalDescription => step.0 is GatheringCandidates && step.1
                is GatherCandidates,
            SessionPhase::GatheringCandidates => step.0 is ReadingLocalDescription && step.1
                is ReadLocalDescription,
            SessionPhase::ReadingLocalDescription => step.0 is Finished && step.1 is Reply && event
                is LocalDescription,
            SessionPhase::Finished => false,
        },
{
}

/// What the browser reads out of its answer is the local description, with its
/// very type and text, and the session's id is a random UUID.
pub proof fn law_the_browser_reads_the_local_description(
    answer: Description,
    step: (SessionPhase, SessionAction),
)
    requires
        call_ensures(
            SessionPhase::advance,
            (
                SessionPhase::ReadingLocalDescription,
                SessionEvent::LocalDescription(Some(answer)),
            ),
            step,
        ),
    ensures
        step.1 matches SessionAction::Reply(response) && {
            &&& parsed_description(json_text(response.answer)) == Ok::<
                (SdpType, Seq<char>),
                Seq<char>,
            >((answer.sdp_type, answer.sdp@))
            &&& json_text(response.answer) == description_json(answer.sdp_type, answer.sdp@)
            &&& response.session_id@.len() == 36
            &&& response.session_id@[8] == '-' && response.session_id@[13] == '-'
            &&& response.session_id@[18] == '-' && response.session_id@[23] == '-'
            &&& response.session_id@[14] == '4'
        },
{
}

/// The id of a session is made of thirty-two hexadecimal digits and four
/// hyphens, each in its place.
pub proof fn law_session_ids_are_hexadecimal(id: Seq<char>, i: int)
    requires
        is_session_id(id),
        0 <= i < id.len(),
    ensures
        id.len() == 36,
        i == 8 || i == 13 || i == 18 || i == 23 <==> id[i] == '-',
        id[i] != '-' ==> ('0' <= id[i] && id[i] <= '9') || ('a' <= id[i] && id[i] <= 'f'),
        id[14] == '4',
        id[19] == '8' || id[19] == '9' || id[19] == 'a' || id[19] == 'b',
{
}

/// Every phase can hear of success and of failure, where there can be one.
pub proof fn law_every_outcome_is_expected(
    phase: SessionPhase,
    error: String,
    created: Description,
    local: Option<Description>,
)
    ensures
        phase is Connecting || phase is AddingTrack || phase is SettingRemoteDescription || phase
            is SettingLocalDescription ==> expects(phase, SessionEvent::Succeeded) && expects(
            phase,
            SessionEvent::Failed(error),
        ),
        phase is CreatingAnswer ==> expects(phase, SessionEvent::AnswerCreated(created))
            && expects(phase, SessionEvent::Failed(error)),
        phase is GatheringCandidates ==> expects(phase, SessionEvent::Succeeded),
        phase is ReadingLocalDescription ==> expects(phase, SessionEvent::LocalDescription(local)),
{
}

/// A request for a session, whatever it offers, begins with a connection made
/// with the given servers, and carries the offer and the track along unchanged.
pub proof fn law_every_request_begins_a_negotiation(
    request: SessionRequest,
    config: RtcConfiguration,
    track: Arc<TrackLocalStaticSample>,
    step: (SessionPhase, SessionAction),
)
    requires
        call_ensures(handle_session_request, (request, config, track), step),
    ensures
        step.0 == (SessionPhase::Connecting { offer: request.offer, track }),
        step.1 matches SessionAction::Connect { config: asked, .. } && asked == config,
{
}

/// A negotiation begins with the WebRTC stack that it is given, and is refused
/// with the whole reason if there is none.
pub proof fn law_a_negotiation_needs_a_stack(
    request: SessionRequest,
    config: RtcConfiguration,
    track: Arc<TrackLocalStaticSample>,
    api: Result<API, String>,
    step: (SessionPhase, SessionAction),
)
    requires
        call_ensures(connect, (request, config, track, api), step),
    ensures
        match api {
            Ok(api) => step.0 == (SessionPhase::Connecting { offer: request.offer, track }) && (
            step.1 matches SessionAction::Connect { api: used, config: asked } && used == api
                && asked == config),
            Err(error) => step.0 is Finished && (step.1 matches SessionAction::Refuse(reason)
                && reason.0@ == error@),
        },
{
}

/// The answer that was encoded is sent as it is, under the given id, and the
/// failure to encode it is reported in full.
pub proof fn law_the_encoded_answer_is_sent(
    answer: Result<Value, String>,
    session_id: String,
    step: (SessionPhase, SessionAction),
)
    requires
        call_ensures(conclude, (answer, session_id), step),
    ensures
        step.0 is Finished,
        match answer {
            Ok(answer) => step.1 matches SessionAction::Reply(response) && response.answer == answer
                && response.session_id@ == session_id@,
            Err(error) => step.1 matches SessionAction::Refuse(reason) && reason.0@ == error@,
        },
{
}

/// A request with a readable offer is never refused unless something that was
/// asked for fails: from the request on, every step but the last leads on to
/// the next, until the browser is answered.
pub proof fn law_readable_requests_are_refused_only_by_failures(
    request: SessionRequest,
    config: RtcConfiguration,
    track: Arc<TrackLocalStaticSample>,
    steps: Seq<(SessionPhase, SessionAction)>,
    events: Seq<SessionEvent>,
    n: int,
)
    requires
        call_ensures(handle_session_request, (request, config, track), steps[0]),
        parsed_description(json_text(request.offer)) is Ok,
        negotiates(steps, events),
        0 <= n < steps.len(),
        forall|i: int| 0 <= i < n ==> !((#[trigger] events[i]) is Failed),
        forall|i: int|
            0 <= i < n ==> (#[trigger] events[i]) != SessionEvent::LocalDescription(None),
    ensures
        !(steps[n].1 is Refuse),
        n <= 7,
        steps[n].1 is Reply <==> n == 7,
{
    assert(forall|i: int| 0 <= i < n ==> #[trigger] proceeds(steps, events, i));
    if n > 0 { assert(proceeds(steps, events, 0)); }
    if n > 1 { assert(proceeds(steps, events, 1)); }
    if n > 2 { assert(proceeds(steps, events, 2)); }
    if n > 3 { assert(proceeds(steps, events, 3)); }
    if n > 4 { assert(proceeds(steps, events, 4)); }
    if n > 5 { assert(proceeds(steps, events, 5)); }
    if n > 6 { assert(proceeds(steps, events, 6)); }
    if n > 7 { assert(proceeds(steps, events, 7)); }
}

} // verus!
