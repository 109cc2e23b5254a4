use gstwebsink::element::{Admission, FlowError, PeerChange, PeerUpdate, Rendering, WebSink};
use gstwebsink::media::{video_track, RtcConfiguration, Sample};
use gstwebsink::session::{handle_session_request, SessionAction, SessionEvent, SessionRequest};
use gstwebsink::session::{Description, SdpType, SessionResponse};
use gstwebsink::settings::PropertyValue;
use gstwebsink::signal::{Sent, Signal};
use std::sync::Arc;
use tokio::runtime::Runtime;
use webrtc::api::API;
use webrtc::peer_connection::configuration::RTCConfiguration;
use webrtc::peer_connection::RTCPeerConnection;
use webrtc::track::track_local::TrackLocal;

fn api() -> API {
    let request = SessionRequest { offer: serde_json::Value::Null };
    let config = RtcConfiguration::with_stun_server("");
    match handle_session_request(request, config, video_track()).1 {
        SessionAction::Connect { api, .. } => api,
        _ => panic!("no WebRTC stack"),
    }
}

fn connection(runtime: &Runtime) -> Arc<RTCPeerConnection> {
    let api = api();
    Arc::new(runtime.block_on(api.new_peer_connection(RTCConfiguration::default())).unwrap())
}

fn started() -> WebSink {
    let mut sink = WebSink::default();
    let listen = sink.start(Ok(Runtime::new().unwrap())).unwrap();
    assert_eq!(listen.port, 8091);
    sink
}

#[test]
fn a_new_element_is_idle() {
    let mut sink = WebSink::default();
    assert_eq!(sink.num_peers(), 0);
    assert!(sink.runtime().is_none());
    assert_eq!(sink.unlock(), None);
    let teardown = sink.stop();
    assert!(teardown.server_handle.is_none());
    assert!(teardown.runtime.is_none());
    assert_eq!(teardown.peer_count, 0);
}

#[test]
fn starting_asks_for_the_server() {
    let mut sink = WebSink::default();
    sink.set_property("port", PropertyValue::UInt(9001));
    sink.set_property("stun-server", PropertyValue::Text(Some("stun:example".to_string())));
    let listen = sink.start(Ok(Runtime::new().unwrap())).unwrap();
    assert_eq!(listen.port, 9001);
    assert_eq!(listen.config.ice_servers.len(), 1);
    assert_eq!(listen.config.ice_servers[0].urls, vec!["stun:example"]);
    assert!(sink.runtime().is_some());
}

#[test]
fn starting_without_a_stun_server_uses_none() {
    let mut sink = WebSink::default();
    sink.set_property("stun-server", PropertyValue::Text(Some(String::new())));
    let listen = sink.start(Ok(Runtime::new().unwrap())).unwrap();
    assert!(listen.config.ice_servers.is_empty());
}

#[test]
fn a_missing_runtime_is_reported() {
    let mut sink = WebSink::default();
    match sink.start(Err("out of threads".to_string())) {
        Err(message) => assert_eq!(message, "Failed to create Tokio runtime: out of threads"),
        Ok(_) => panic!("started"),
    }
    assert!(sink.runtime().is_none());
    assert_eq!(sink.unlock(), None);
}

#[test]
fn a_missing_webrtc_stack_is_reported() {
    let mut sink = WebSink::default();
    match sink.start_with(Runtime::new().unwrap(), Err("no codecs".to_string())) {
        Err(message) => assert_eq!(message, "Failed to create WebRTC API: no codecs"),
        Ok(_) => panic!("started"),
    }
    assert!(sink.runtime().is_none());
    assert_eq!(sink.unlock(), None);
}

#[test]
fn stopping_hands_back_the_server_and_the_runtime() {
    let mut sink = started();
    let server = sink.runtime().unwrap().spawn(std::future::pending::<()>());
    sink.serve(server);
    let teardown = sink.stop();
    teardown.server_handle.unwrap().abort();
    assert!(teardown.runtime.is_some());
    assert!(sink.runtime().is_none());
    assert_eq!(sink.unlock(), None);
    let again = sink.stop();
    assert!(again.server_handle.is_none());
    assert!(again.runtime.is_none());
}

#[test]
fn the_first_signal_waits() {
    let mut sink = started();
    assert_eq!(sink.unlock(), Some(Sent::Delivered));
    assert_eq!(sink.unlock(), Some(Sent::Full));
    let update = sink.update_peer_connections("nobody".to_string(), None, false);
    assert_eq!(update.signal, Some(Sent::Full));
    sink.stop();
    assert_eq!(sink.unlock(), None);
    sink.start(Ok(Runtime::new().unwrap())).unwrap();
    assert_eq!(sink.unlock(), Some(Sent::Delivered));
}

#[test]
fn peers_are_counted() {
    let runtime = Runtime::new().unwrap();
    let mut sink = WebSink::default();
    let added = sink.update_peer_connections("a".to_string(), Some(connection(&runtime)), true);
    assert_eq!(added, PeerUpdate { change: PeerChange::Added, count: 1, signal: None });
    let again = sink.update_peer_connections("a".to_string(), Some(connection(&runtime)), true);
    assert_eq!(again, PeerUpdate { change: PeerChange::Added, count: 1, signal: None });
    let other = sink.update_peer_connections("b".to_string(), Some(connection(&runtime)), true);
    assert_eq!(other.count, 2);
    assert_eq!(sink.num_peers(), 2);
    let empty = sink.update_peer_connections("c".to_string(), None, true);
    assert_eq!(empty, PeerUpdate { change: PeerChange::NotAdded, count: 2, signal: None });
    let stranger = sink.update_peer_connections("c".to_string(), None, false);
    assert_eq!(stranger, PeerUpdate { change: PeerChange::NotRemoved, count: 2, signal: None });
    let removed = sink.update_peer_connections("a".to_string(), None, false);
    assert_eq!(removed, PeerUpdate { change: PeerChange::Removed, count: 1, signal: None });
    assert_eq!(sink.stop().peer_count, 1);
    assert_eq!(sink.num_peers(), 0);
}

#[test]
fn a_change_of_peers_is_announced() {
    let mut sink = started();
    let update = sink.update_peer_connections("a".to_string(), None, false);
    assert_eq!(update.signal, Some(Sent::Delivered));
    assert_eq!(sink.unlock(), Some(Sent::Full));
}

fn live() -> WebSink {
    let mut sink = started();
    sink.set_property("is-live", PropertyValue::Flag(true));
    sink
}

#[test]
fn live_mode_waits_for_peers() {
    let runtime = Runtime::new().unwrap();
    let mut sink = started();
    assert_eq!(sink.begin_render(), Admission::Read { num_peers: 0 });
    sink.set_property("is-live", PropertyValue::Flag(true));
    assert_eq!(sink.begin_render(), Admission::Wait);
    assert_eq!(sink.resume_render(), Admission::Wait);
    assert_eq!(sink.resume_render(), Admission::Wait);
    sink.update_peer_connections("a".to_string(), Some(connection(&runtime)), true);
    assert_eq!(sink.resume_render(), Admission::Read { num_peers: 1 });
    assert_eq!(sink.begin_render(), Admission::Read { num_peers: 1 });
    sink.update_peer_connections("a".to_string(), None, false);
    assert_eq!(sink.begin_render(), Admission::Wait);
    assert_eq!(sink.resume_render(), Admission::Wait);
}

#[test]
fn an_unlock_ends_the_wait() {
    let mut sink = live();
    assert_eq!(sink.resume_render(), Admission::Wait);
    assert_eq!(sink.unlock(), Some(Sent::Delivered));
    assert_eq!(sink.resume_render(), Admission::GiveUp);
    assert_eq!(sink.resume_render(), Admission::Wait);
}

#[test]
fn an_unlock_that_finds_no_room_ends_the_wait() {
    let runtime = Runtime::new().unwrap();
    let mut sink = live();
    sink.update_peer_connections("a".to_string(), Some(connection(&runtime)), true);
    let left = sink.update_peer_connections("a".to_string(), None, false);
    assert_eq!(left.signal, Some(Sent::Full));
    assert_eq!(sink.unlock(), Some(Sent::Full));
    assert_eq!(sink.begin_render(), Admission::Wait);
    assert_eq!(sink.resume_render(), Admission::GiveUp);
    assert_eq!(sink.resume_render(), Admission::Wait);
}

#[test]
fn an_old_announcement_does_not_end_the_wait() {
    let runtime = Runtime::new().unwrap();
    let mut sink = live();
    sink.update_peer_connections("a".to_string(), Some(connection(&runtime)), true);
    sink.update_peer_connections("a".to_string(), None, false);
    assert_eq!(sink.begin_render(), Admission::Wait);
    assert_eq!(sink.resume_render(), Admission::Wait);
    assert_eq!(sink.unlock(), Some(Sent::Delivered));
}

#[test]
fn the_end_of_live_mode_and_a_stop_end_the_wait() {
    let mut sink = live();
    assert_eq!(sink.resume_render(), Admission::Wait);
    sink.set_property("is-live", PropertyValue::Flag(false));
    assert_eq!(sink.resume_render(), Admission::Read { num_peers: 0 });
    sink.set_property("is-live", PropertyValue::Flag(true));
    sink.stop();
    assert_eq!(sink.begin_render(), Admission::Wait);
    assert_eq!(sink.resume_render(), Admission::GiveUp);
}

#[test]
fn answered_sessions_get_the_video() {
    let mut sink = WebSink::default();
    sink.set_property("is-live", PropertyValue::Flag(true));
    let listen = sink.start(Ok(Runtime::new().unwrap())).unwrap();

    let offer = serde_json::from_str(r#"{"type":"offer","sdp":"v=0"}"#).unwrap();
    let request = SessionRequest { offer };
    let (phase, _) = handle_session_request(request, listen.config, Arc::clone(&listen.track));
    let (phase, action) = phase.advance(SessionEvent::Succeeded);
    let added = match action {
        SessionAction::AddTrack { track } => track,
        _ => panic!("no track is added"),
    };
    assert!(Arc::ptr_eq(&added, &listen.track));
    let (phase, _) = phase.advance(SessionEvent::Succeeded);
    let (phase, _) = phase.advance(SessionEvent::Succeeded);
    let answer = Description { sdp_type: SdpType::Answer, sdp: "v=1".to_string() };
    let (phase, _) = phase.advance(SessionEvent::AnswerCreated(answer));
    let (phase, _) = phase.advance(SessionEvent::Succeeded);
    let (phase, _) = phase.advance(SessionEvent::Succeeded);
    let local = Description { sdp_type: SdpType::Answer, sdp: "v=1".to_string() };
    let response = match phase.advance(SessionEvent::LocalDescription(Some(local))).1 {
        SessionAction::Reply(response) => response,
        _ => panic!("not answered"),
    };

    assert_eq!(sink.begin_render(), Admission::Wait);
    let connection = connection(sink.runtime().unwrap());
    let update = sink.session_connected(&response, connection);
    let delivered = Some(Sent::Delivered);
    assert_eq!(update, PeerUpdate { change: PeerChange::Added, count: 1, signal: delivered });
    assert_eq!(sink.resume_render(), Admission::Read { num_peers: 1 });
    match sink.render(1, Some(&[1, 2, 3]), None) {
        Ok(Rendering::Send { sample, track, .. }) => {
            assert_eq!(sample.data.as_ref(), &[1, 2, 3]);
            assert!(Arc::ptr_eq(track, &added));
        }
        _ => panic!("not sent"),
    }

    let gone = sink.update_peer_connections(response.session_id, None, false);
    assert_eq!(gone.change, PeerChange::Removed);
    assert_eq!(sink.begin_render(), Admission::Wait);
}

#[test]
fn a_session_is_a_peer_under_its_id() {
    let mut sink = started();
    let response = SessionResponse {
        answer: serde_json::Value::Null,
        session_id: "session".to_string(),
    };
    let connection = connection(sink.runtime().unwrap());
    assert_eq!(sink.session_connected(&response, connection).count, 1);
    let other = sink.update_peer_connections("other".to_string(), None, false);
    assert_eq!(other.change, PeerChange::NotRemoved);
    let update = sink.update_peer_connections("session".to_string(), None, false);
    assert_eq!(update.change, PeerChange::Removed);
    assert_eq!(sink.num_peers(), 0);
}

#[test]
fn buffers_are_sent_to_peers() {
    let sink = started();
    match sink.render(1, Some(&[0, 0, 0, 1, 9]), Some(40_000_000)) {
        Ok(Rendering::Send { sample, track, .. }) => {
            assert_eq!(sample.data.as_ref(), &[0, 0, 0, 1, 9]);
            assert_eq!(sample.duration_nanos, 40_000_000);
            assert_eq!(track.codec().mime_type, "video/H264");
            assert_eq!(track.id(), "video");
            assert_eq!(track.stream_id(), "websink");
        }
        _ => panic!("not sent"),
    }
    assert!(matches!(sink.render(0, Some(&[1]), None), Ok(Rendering::NoPeers)));
    assert!(matches!(sink.render(-1, Some(&[1]), None), Ok(Rendering::NoPeers)));
}

#[test]
fn an_idle_element_has_no_track() {
    let sink = WebSink::default();
    assert!(matches!(sink.render(1, Some(&[1]), None), Ok(Rendering::NoTrack)));
}

#[test]
fn an_unreadable_buffer_is_an_error() {
    let sink = started();
    assert!(matches!(sink.render(1, None, None), Err(FlowError::Error)));
    assert!(matches!(sink.render(0, None, None), Err(FlowError::Error)));
}

#[test]
fn frames_last_a_thirtieth_of_a_second_by_default() {
    let sample = Sample::new(&[7], None);
    assert_eq!(sample.data.as_ref(), &[7]);
    assert_eq!(sample.duration_nanos, 33_333_333);
    assert_eq!(Sample::new(&[], Some(0)).duration_nanos, 0);
}

#[test]
fn what_is_sent_is_received() {
    let mut signal = Signal::new();
    assert_eq!(signal.try_receive(), None);
    assert_eq!(signal.try_send(7), Sent::Delivered);
    assert_eq!(signal.try_send(8), Sent::Full);
    assert_eq!(signal.try_receive(), Some(7));
    assert_eq!(signal.try_receive(), None);
    assert_eq!(signal.try_send(9), Sent::Delivered);
    assert_eq!(signal.try_receive(), Some(9));
}
