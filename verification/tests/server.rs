use gstwebsink::assets::{asset_path, asset_reply};
use gstwebsink::pipeline::{react, BusMessage, PIPELINE};
use gstwebsink::server::{announced_urls, banner, bind_address, server_url};
use gstwebsink::server::{find_available_port, start_http_server};
use gstwebsink::server::{handle_session, new_session};
use gstwebsink::server::{BindOutcome, PortSearch, ReplyBody, SessionOutcome, StartError};
use gstwebsink::server::{ServerEvent, ServerState};
use gstwebsink::session::{SessionRequest, SessionResponse};
use gstwebsink::text::{decimal_text, same_text};
use serde_json::Value;

fn run(start_port: u16, outcome: impl Fn(u16) -> BindOutcome) -> (Vec<u16>, Option<u16>) {
    let mut tried = Vec::new();
    let mut search = find_available_port(start_port);
    loop {
        match search {
            PortSearch::Try { port, .. } => {
                tried.push(port);
                search = search.advance(outcome(port));
            }
            PortSearch::Done(found) => return (tried, found),
        }
    }
}

#[test]
fn the_first_free_port_is_found() {
    let (tried, found) = run(8091, |port| {
        if port < 8094 { BindOutcome::Refused } else { BindOutcome::Bound(Some(port)) }
    });
    assert_eq!(tried, vec![8091, 8092, 8093, 8094]);
    assert_eq!(found, Some(8094));
}

#[test]
fn a_hundred_more_ports_are_tried() {
    let (tried, found) = run(8091, |_| BindOutcome::Refused);
    assert_eq!(tried.len(), 101);
    assert_eq!(tried[0], 8091);
    assert_eq!(tried[100], 8191);
    assert_eq!(found, None);
}

#[test]
fn no_port_beyond_the_last_is_tried() {
    let (tried, found) = run(65530, |_| BindOutcome::Refused);
    assert_eq!(tried, vec![65530, 65531, 65532, 65533, 65534, 65535]);
    assert_eq!(found, None);
}

#[test]
fn port_zero_is_tried_alone() {
    assert_eq!(run(0, |_| BindOutcome::Bound(Some(40123))), (vec![0], Some(40123)));
    assert_eq!(run(0, |_| BindOutcome::Refused), (vec![0], None));
}

#[test]
fn a_port_without_a_number_ends_the_search() {
    assert_eq!(run(8091, |_| BindOutcome::Bound(None)), (vec![8091], None));
}

#[test]
fn a_server_needs_a_port() {
    assert_eq!(start_http_server(Some(8092)), Ok(8092));
    assert_eq!(start_http_server(None), Err(StartError::NoAvailablePort));
    assert_eq!(StartError::NoAvailablePort.message(), "No available ports found");
}

#[test]
fn addresses_name_the_port() {
    assert_eq!(decimal_text(0), "0");
    assert_eq!(decimal_text(7), "7");
    assert_eq!(decimal_text(10), "10");
    assert_eq!(decimal_text(8091), "8091");
    assert_eq!(decimal_text(65535), "65535");
    assert_eq!(bind_address(8091), "0.0.0.0:8091");
    assert_eq!(server_url("localhost", 80), "http://localhost:80");
    assert_eq!(
        banner(8091),
        "\x1b[32mHTTP server starting on http://localhost:8091\x1b[0m"
    );
}

#[test]
fn texts_are_compared_by_their_characters() {
    assert!(same_text("", ""));
    assert!(same_text("/", "/"));
    assert!(!same_text("/", "//"));
    assert!(!same_text("a", "b"));
}

#[test]
fn the_server_is_announced() {
    assert_eq!(
        announced_urls(Some("box".to_string()), Some("10.0.0.7".to_string()), 8091),
        vec!["http://box:8091", "http://10.0.0.7:8091"]
    );
    assert_eq!(announced_urls(None, Some("10.0.0.7".to_string()), 81), vec!["http://10.0.0.7:81"]);
    assert_eq!(announced_urls(None, None, 8091), vec!["http://localhost:8091"]);
}

#[test]
fn the_root_is_the_index_page() {
    assert_eq!(asset_path(""), "index.html");
    assert_eq!(asset_path("/"), "index.html");
    assert_eq!(asset_path("js/app.js"), "js/app.js");
    assert_eq!(asset_path("//"), "//");
    assert_eq!(asset_path("index.html"), "index.html");
    let root = asset_reply(&asset_path(""), Some(b"<html>".to_vec())).unwrap();
    let index = asset_reply(&asset_path("index.html"), Some(b"<html>".to_vec())).unwrap();
    assert_eq!(root.content_type, index.content_type);
    assert_eq!(root.body, index.body);
}

#[test]
fn files_are_served_with_their_media_type() {
    let reply = asset_reply("index.html", Some(b"<html>".to_vec())).unwrap();
    assert_eq!(reply.content_type, "text/html");
    assert_eq!(reply.body, b"<html>".to_vec());
    let reply = asset_reply("style.css", Some(Vec::new())).unwrap();
    assert_eq!(reply.content_type, "text/css");
    let reply = asset_reply("LICENSE", Some(vec![1, 2])).unwrap();
    assert_eq!(reply.content_type, "application/octet-stream");
    assert!(asset_reply("missing.html", None).is_none());
}

fn response() -> SessionResponse {
    SessionResponse { answer: Value::Bool(true), session_id: "id".to_string() }
}

#[test]
fn an_answered_session_is_ok() {
    let reply = handle_session(SessionOutcome::Received(Some(Ok(response()))));
    assert_eq!(reply.status, 200);
    match reply.body {
        ReplyBody::Session(session) => {
            assert_eq!(session.answer, Value::Bool(true));
            assert_eq!(session.session_id, "id");
        }
        ReplyBody::Error(error) => panic!("{}", error),
    }
}

#[test]
fn a_failed_session_is_a_server_error() {
    let outcomes = vec![
        (SessionOutcome::NotSent, "Server error"),
        (SessionOutcome::Received(Some(Err("no codec".to_string()))), "no codec"),
        (SessionOutcome::Received(None), "No response from server"),
    ];
    for (outcome, expected) in outcomes {
        let reply = handle_session(outcome);
        assert_eq!(reply.status, 500);
        match reply.body {
            ReplyBody::Error(error) => assert_eq!(error, expected),
            ReplyBody::Session(_) => panic!("a session was answered"),
        }
    }
}

#[test]
fn each_session_has_a_peer_id_of_its_own() {
    let (sender, mut receiver) = tokio::sync::mpsc::channel(2);
    let state = ServerState { event_sender: sender };
    let mut ids = Vec::new();
    for _ in 0..2 {
        let (responder, _answers) = tokio::sync::mpsc::channel(1);
        let request = SessionRequest { offer: Value::String("offer".to_string()) };
        let event = new_session(request, responder);
        let ServerEvent::NewSession { ref peer_id, ref offer, .. } = event;
        assert_eq!(*offer, Value::String("offer".to_string()));
        let uuid = uuid::Uuid::parse_str(peer_id).unwrap();
        assert_eq!(uuid.get_version_num(), 4);
        assert_eq!(uuid.to_string(), *peer_id);
        ids.push(peer_id.clone());
        assert!(state.clone().event_sender.try_send(event).is_ok());
    }
    assert_ne!(ids[0], ids[1]);
    for id in ids {
        let ServerEvent::NewSession { peer_id, .. } = receiver.try_recv().unwrap();
        assert_eq!(peer_id, id);
    }
}

#[test]
fn the_end_of_the_stream_ends_the_program() {
    let reaction = react(BusMessage::Eos);
    assert!(reaction.quit);
    assert_eq!(reaction.line.unwrap(), "Bus watch  Got eos");
}

#[test]
fn errors_are_reported() {
    let reaction = react(BusMessage::Error {
        source: "Some(\"/GstPipeline:p\")".to_string(),
        error: "broken".to_string(),
        debug: "None".to_string(),
    });
    assert!(!reaction.quit);
    assert_eq!(
        reaction.line.unwrap(),
        "Error from Some(\"/GstPipeline:p\"): broken (None)"
    );
    let reaction = react(BusMessage::Other);
    assert!(!reaction.quit);
    assert!(reaction.line.is_none());
}

#[test]
fn the_pipeline_ends_in_the_sink() {
    assert!(PIPELINE.starts_with("videotestsrc ! "));
    assert!(PIPELINE.ends_with(" ! websink is_live=true name=wsink"));
}
