use gstwebsink::media::{video_track, RtcConfiguration};
use gstwebsink::session::{conclude, connect, handle_session_request, set_offer};
use gstwebsink::session::{Description, SdpType, SessionAction, SessionEvent, SessionPhase};
use gstwebsink::session::SessionRequest;
use serde_json::Value;
use webrtc::track::track_local::TrackLocal;

fn offer(json: &str) -> SessionRequest {
    SessionRequest { offer: serde_json::from_str(json).unwrap() }
}

fn refusal(step: (SessionPhase, SessionAction)) -> String {
    assert!(matches!(step.0, SessionPhase::Finished));
    match step.1 {
        SessionAction::Refuse(error) => error.0,
        _ => panic!("not refused"),
    }
}

fn connected(json: &str) -> SessionPhase {
    let config = RtcConfiguration::with_stun_server("stun:example");
    let (phase, action) = handle_session_request(offer(json), config, video_track());
    match action {
        SessionAction::Connect { config, .. } => {
            assert_eq!(config.ice_servers.len(), 1);
            assert_eq!(config.ice_servers[0].urls, vec!["stun:example"]);
        }
        _ => panic!("no connection is asked for"),
    }
    phase
}

#[test]
fn an_offer_is_answered() {
    let phase = connected(r#"{"type":"offer","sdp":"v=0"}"#);
    let (phase, action) = phase.advance(SessionEvent::Succeeded);
    match action {
        SessionAction::AddTrack { track } => {
            assert_eq!(track.codec().mime_type, "video/H264");
            assert_eq!(track.id(), "video");
            assert_eq!(track.stream_id(), "websink");
        }
        _ => panic!("no track is added"),
    }
    let (phase, action) = phase.advance(SessionEvent::Succeeded);
    match action {
        SessionAction::SetRemoteDescription { offer } => {
            assert_eq!(offer.sdp_type, SdpType::Offer);
            assert_eq!(offer.sdp, "v=0");
        }
        _ => panic!("no offer is set"),
    }
    let (phase, action) = phase.advance(SessionEvent::Succeeded);
    assert!(matches!(action, SessionAction::CreateAnswer));
    let created = Description { sdp_type: SdpType::Answer, sdp: "created".to_string() };
    let (phase, action) = phase.advance(SessionEvent::AnswerCreated(created));
    match action {
        SessionAction::SetLocalDescription { answer } => {
            assert_eq!(answer.sdp_type, SdpType::Answer);
            assert_eq!(answer.sdp, "created");
        }
        _ => panic!("no answer is set"),
    }
    let (phase, action) = phase.advance(SessionEvent::Succeeded);
    assert!(matches!(action, SessionAction::GatherCandidates));
    let (phase, action) = phase.advance(SessionEvent::Succeeded);
    assert!(matches!(action, SessionAction::ReadLocalDescription));
    let answer = Description { sdp_type: SdpType::Answer, sdp: "v=1 \"quoted\"".to_string() };
    let (phase, action) = phase.advance(SessionEvent::LocalDescription(Some(answer)));
    assert!(matches!(phase, SessionPhase::Finished));
    match action {
        SessionAction::Reply(response) => {
            let expected: Value =
                serde_json::from_str(r#"{"type":"answer","sdp":"v=1 \"quoted\""}"#).unwrap();
            assert_eq!(response.answer, expected);
            let id = uuid::Uuid::parse_str(&response.session_id).unwrap();
            assert_eq!(id.get_version_num(), 4);
            assert_eq!(response.session_id.len(), 36);
        }
        _ => panic!("not answered"),
    }
}

#[test]
fn a_failed_connection_is_refused() {
    let phase = connected(r#"{"type":"offer","sdp":"v=0"}"#);
    assert_eq!(refusal(phase.advance(SessionEvent::Failed("no network".to_string()))), "no network");
}

#[test]
fn failures_of_later_actions_are_refused() {
    for phase in [
        SessionPhase::AddingTrack { offer: Value::Null },
        SessionPhase::SettingRemoteDescription,
        SessionPhase::CreatingAnswer,
        SessionPhase::SettingLocalDescription,
    ] {
        assert_eq!(refusal(phase.advance(SessionEvent::Failed("why".to_string()))), "why");
    }
}

#[test]
fn an_unreadable_offer_is_refused() {
    let phase = connected(r#"{"type":"offer"}"#);
    let (phase, _) = phase.advance(SessionEvent::Succeeded);
    assert_eq!(refusal(phase.advance(SessionEvent::Succeeded)), "missing field `sdp`");
}

#[test]
fn every_type_of_description_is_read() {
    for (name, sdp_type) in [
        ("Unspecified", SdpType::Unspecified),
        ("offer", SdpType::Offer),
        ("pranswer", SdpType::Pranswer),
        ("answer", SdpType::Answer),
        ("rollback", SdpType::Rollback),
    ] {
        let json = format!("{{\"type\":\"{}\",\"sdp\":\"s\"}}", name);
        let phase = SessionPhase::AddingTrack { offer: serde_json::from_str(&json).unwrap() };
        match phase.advance(SessionEvent::Succeeded).1 {
            SessionAction::SetRemoteDescription { offer } => {
                assert_eq!(offer.sdp_type, sdp_type);
                assert_eq!(offer.sdp, "s");
            }
            _ => panic!("not read"),
        }
        let description = Description { sdp_type, sdp: "s".to_string() };
        let event = SessionEvent::LocalDescription(Some(description));
        match SessionPhase::ReadingLocalDescription.advance(event).1 {
            SessionAction::Reply(response) => {
                assert_eq!(response.answer, serde_json::from_str::<Value>(&json).unwrap());
            }
            _ => panic!("not answered"),
        }
    }
}

#[test]
fn a_missing_local_description_is_refused() {
    let step = SessionPhase::ReadingLocalDescription.advance(SessionEvent::LocalDescription(None));
    assert_eq!(refusal(step), "Failed to get local description");
}

#[test]
fn a_negotiation_needs_a_webrtc_stack() {
    let config = RtcConfiguration::with_stun_server("");
    let step = connect(offer("null"), config, video_track(), Err("no codecs".to_string()));
    assert_eq!(refusal(step), "no codecs");
}

#[test]
fn what_was_read_decides() {
    assert_eq!(refusal(set_offer(Err("bad".to_string()))), "bad");
    let description = Description { sdp_type: SdpType::Offer, sdp: "x".to_string() };
    let (phase, _) = set_offer(Ok(description));
    assert!(matches!(phase, SessionPhase::SettingRemoteDescription));
    assert_eq!(refusal(conclude(Err("bad".to_string()), "id".to_string())), "bad");
    match conclude(Ok(Value::Null), "id".to_string()).1 {
        SessionAction::Reply(response) => {
            assert_eq!(response.answer, Value::Null);
            assert_eq!(response.session_id, "id");
        }
        _ => panic!("not answered"),
    }
}
