//! The sink element: its state, and what it does when the pipeline starts it,
//! stops it, unlocks it or hands it a buffer.
use crate::media::{buffer_bytes, frame_nanos, stun_servers, track_labels, video_labels};
use crate::media::{create_api, share_track, video_track, RtcConfiguration, Sample};
use crate::session::{connects, law_answered_session_has_the_track, negotiates};
use crate::session::{SessionAction, SessionEvent, SessionPhase, SessionRequest, SessionResponse};
use crate::settings::lemma_property_names;
use crate::settings::{accepts, default_settings, kind_of_name, property_of, with_property};
use crate::settings::{PropertyValue, PropertyValueView, Settings, SettingsView};
use crate::signal::{accepted, oldest, queue_after, queue_left};
use crate::signal::{Sent, Signal, SIGNAL_CAPACITY};
use std::sync::Arc;
use tokio::runtime::Runtime;
use tokio::task::JoinHandle;
use vstd::hash_map::StringHashMap;
use vstd::prelude::*;
use webrtc::api::API;
use webrtc::peer_connection::RTCPeerConnection;
use webrtc::track::track_local::track_local_static_sample::TrackLocalStaticSample;

verus! {

/// The runtime on which the element's tasks run.
#[verifier::external_type_specification]
#[verifier::external_body]
pub struct ExRuntime(tokio::runtime::Runtime);

/// The handle of a running task.
#[verifier::external_type_specification]
#[verifier::external_body]
#[verifier::reject_recursive_types(T)]
pub struct ExJoinHandle<T>(tokio::task::JoinHandle<T>);

/// Why a task did not end by itself.
#[verifier::external_type_specification]
#[verifier::external_body]
pub struct ExJoinError(tokio::task::JoinError);

/// A connection to one browser.
#[verifier::external_type_specification]
#[verifier::external_body]
pub struct ExPeerConnection(webrtc::peer_connection::RTCPeerConnection);

/// What the element holds while it runs.
pub struct State {
    runtime: Option<Runtime>,
    server_handle: Option<JoinHandle<()>>,
    peer_connections: StringHashMap<Arc<RTCPeerConnection>>,
    signal: Option<Signal>,
    missed_unlock: bool,
    webrtc_api: Option<API>,
    video_track: Option<Arc<TrackLocalStaticSample>>,
    webrtc_config: Option<RtcConfiguration>,
}

/// The element.
pub struct WebSink {
    settings: Settings,
    state: State,
    num_peers: i32,
}

/// The element as plain values and the outside objects it holds.
#[verifier::ext_equal]
pub struct WebSinkView {
    pub settings: SettingsView,
    pub runtime: Option<Runtime>,
    pub server_handle: Option<JoinHandle<()>>,
    /// The connections by their peers' ids.
    pub peers: Map<Seq<char>, Arc<RTCPeerConnection>>,
    /// The messages waiting on the element's channel, if it has one.
    pub pending: Option<Seq<i32>>,
    /// Whether an unlock was asked for that the channel had no room for.
    pub missed_unlock: bool,
    pub api: Option<API>,
    pub track: Option<Arc<TrackLocalStaticSample>>,
    /// The addresses of the servers that peer connections are made with.
    pub config: Option<Seq<Seq<Seq<char>>>>,
    pub num_peers: i32,
}

impl View for WebSink {
    type V = WebSinkView;

    closed spec fn view(&self) -> WebSinkView {
        WebSinkView {
            settings: self.settings@,
            runtime: self.state.runtime,
            server_handle: self.state.server_handle,
            peers: self.state.peer_connections@,
            pending: match self.state.signal {
                Some(signal) => Some(signal@),
                None => None,
            },
            missed_unlock: self.state.missed_unlock,
            api: self.state.webrtc_api,
            track: self.state.video_track,
            config: match self.state.webrtc_config {
                Some(config) => Some(config@),
                None => None,
            },
            num_peers: self.num_peers,
        }
    }
}

/// The peer count of a set of connections: its size as an `i32`.
pub open spec fn count_of(peers: Map<Seq<char>, Arc<RTCPeerConnection>>) -> i32 {
    peers.len() as i32
}

/// What holds of the element between any two calls.
///
/// The peer count is that of the connections. What `start` sets up is there
/// as a whole or not at all, the server runs on the runtime, the track is the
/// video track, and the channel never holds more than it has room for. An
/// unlock is missed only while the channel is full.
pub open spec fn consistent(sink: WebSinkView) -> bool {
    &&& sink.peers.dom().finite()
    &&& sink.num_peers == count_of(sink.peers)
    &&& sink.api is Some == sink.runtime is Some
    &&& sink.track is Some == sink.runtime is Some
    &&& sink.config is Some == sink.runtime is Some
    &&& sink.pending is Some == sink.runtime is Some
    &&& sink.server_handle is Some ==> sink.runtime is Some
    &&& sink.track matches Some(track) ==> track_labels(*track) == video_labels()
    &&& sink.pending matches Some(queue) ==> queue.len() <= SIGNAL_CAPACITY
    &&& sink.missed_unlock ==> (sink.pending matches Some(queue) && queue.len()
        == SIGNAL_CAPACITY)
}

/// A new element, with the given settings.
pub open spec fn idle(settings: SettingsView) -> WebSinkView {
    WebSinkView {
        settings,
        runtime: None,
        server_handle: None,
        peers: Map::empty(),
        pending: None,
        missed_unlock: false,
        api: None,
        track: None,
        config: None,
        num_peers: 0,
    }
}

/// The element after it was set up to run.
pub open spec fn running(
    sink: WebSinkView,
    runtime: Runtime,
    api: API,
    track: Arc<TrackLocalStaticSample>,
) -> WebSinkView {
    WebSinkView {
        runtime: Some(runtime),
        pending: Some(Seq::empty()),
        missed_unlock: false,
        api: Some(api),
        track: Some(track),
        config: Some(stun_servers(sink.settings.stun_server)),
        ..sink
    }
}

/// The element after its HTTP server was started.
pub open spec fn serving(sink: WebSinkView, server: JoinHandle<()>) -> WebSinkView {
    WebSinkView { server_handle: Some(server), ..sink }
}

/// The connections after a peer was added or removed. Adding a peer without a
/// connection changes nothing.
pub open spec fn peers_after(
    peers: Map<Seq<char>, Arc<RTCPeerConnection>>,
    peer_id: Seq<char>,
    connection: Option<Arc<RTCPeerConnection>>,
    add: bool,
) -> Map<Seq<char>, Arc<RTCPeerConnection>> {
    if add {
        match connection {
            Some(connection) => peers.insert(peer_id, connection),
            None => peers,
        }
    } else {
        peers.remove(peer_id)
    }
}

/// The element after a message was handed to its channel.
pub open spec fn signaled(sink: WebSinkView, message: i32) -> WebSinkView {
    WebSinkView {
        pending: match sink.pending {
            Some(queue) => Some(queue_after(queue, message)),
            None => None,
        },
        ..sink
    }
}

/// What becomes of a message handed to the element's channel; nothing if
/// there is no channel.
pub open spec fn signal_outcome(sink: WebSinkView) -> Option<Sent> {
    match sink.pending {
        Some(queue) => Some(accepted(queue)),
        None => None,
    }
}

/// The element with other connections, and their count.
pub open spec fn with_peers(
    sink: WebSinkView,
    peers: Map<Seq<char>, Arc<RTCPeerConnection>>,
) -> WebSinkView {
    WebSinkView { peers, num_peers: count_of(peers), ..sink }
}

/// The element after a peer was added or removed: the new count is stored and
/// announced.
pub open spec fn updated(
    sink: WebSinkView,
    peer_id: Seq<char>,
    connection: Option<Arc<RTCPeerConnection>>,
    add: bool,
) -> WebSinkView {
    let peers = peers_after(sink.peers, peer_id, connection, add);
    signaled(with_peers(sink, peers), count_of(peers))
}

/// The message that asks a waiting render to give up.
pub const UNLOCK_MESSAGE: i32 = -1;

/// The element after a waiting render was asked to give up. The request is
/// remembered if the channel has no room for it.
pub open spec fn unlocked(sink: WebSinkView) -> WebSinkView {
    WebSinkView {
        missed_unlock: sink.missed_unlock || signal_outcome(sink) == Some(Sent::Full),
        ..signaled(sink, UNLOCK_MESSAGE)
    }
}

/// What the element asks for once it is set up.
pub struct Listen {
    /// The port of the HTTP server.
    pub port: u16,
    /// The configuration of the peer connections that the server makes.
    pub config: RtcConfiguration,
    /// The track that those peer connections receive.
    pub track: Arc<TrackLocalStaticSample>,
}

/// What a stopped element leaves to be ended.
pub struct Teardown {
    /// The HTTP server's task.
    pub server_handle: Option<JoinHandle<()>>,
    /// The runtime that it ran on.
    pub runtime: Option<Runtime>,
    /// How many peer connections were dropped.
    pub peer_count: usize,
}

/// What a change of peers did to the connections.
#[derive(Debug, Clone, Copy, PartialEq, Eq, Structural)]
pub enum PeerChange {
    Added,
    /// There was no connection to add.
    NotAdded,
    Removed,
    /// There was no such peer to remove.
    NotRemoved,
}

/// What became of a change of peers.
#[derive(Debug, Clone, Copy, PartialEq, Eq, Structural)]
pub struct PeerUpdate {
    pub change: PeerChange,
    /// The peer count after the change.
    pub count: i32,
    /// What became of the announcement, if there was a channel for it.
    pub signal: Option<Sent>,
}

/// What a change of peers does to a set of connections.
pub open spec fn peer_change(
    peers: Map<Seq<char>, Arc<RTCPeerConnection>>,
    peer_id: Seq<char>,
    connection: Option<Arc<RTCPeerConnection>>,
    add: bool,
) -> PeerChange {
    if add {
        if connection is Some { PeerChange::Added } else { PeerChange::NotAdded }
    } else {
        if peers.contains_key(peer_id) { PeerChange::Removed } else { PeerChange::NotRemoved }
    }
}

/// Whether a buffer is looked at.
#[derive(Debug, Clone, Copy, PartialEq, Eq, Structural)]
pub enum Admission {
    /// Rendering blocks until the element has changed.
    Wait,
    /// The buffer is to be mapped, for this many peers.
    Read { num_peers: i32 },
    /// The buffer is dropped unread.
    GiveUp,
}

/// What is done with a buffer's bytes.
pub enum Rendering<'a> {
    /// The sample is written to the track, on the runtime.
    Send { sample: Sample, track: &'a Arc<TrackLocalStaticSample>, runtime: &'a Runtime },
    /// There is no peer to send to.
    NoPeers,
    /// There is no track to write to.
    NoTrack,
    /// There is no runtime to write on.
    NoRuntime,
}

/// A buffer could not be rendered.
#[derive(Debug, Clone, Copy, PartialEq, Eq, Structural)]
pub enum FlowError {
    /// Its memory could not be mapped.
    Error,
}

/// Whether a buffer has to wait: in live mode, while there is no peer.
pub open spec fn waits(sink: WebSinkView) -> bool {
    sink.settings.is_live && sink.num_peers == 0
}

/// What is done with a buffer that has just come.
pub open spec fn admission(sink: WebSinkView) -> Admission {
    if waits(sink) {
        Admission::Wait
    } else {
        Admission::Read { num_peers: sink.num_peers }
    }
}

/// Whether a waiting render is asked to give up.
pub open spec fn unlock_asked(sink: WebSinkView) -> bool {
    sink.missed_unlock || (sink.pending matches Some(queue) && oldest(queue) == Some(
        UNLOCK_MESSAGE,
    ))
}

/// What is done with a buffer that waits, once the element may have changed.
/// An element that no longer runs makes no buffer wait.
pub open spec fn resumption(sink: WebSinkView) -> Admission {
    if unlock_asked(sink) || (waits(sink) && sink.pending is None) {
        Admission::GiveUp
    } else {
        admission(sink)
    }
}

/// The element after a waiting render took note of the oldest message and of
/// a missed unlock.
pub open spec fn resumed(sink: WebSinkView) -> WebSinkView {
    WebSinkView {
        pending: match sink.pending {
            Some(queue) => Some(queue_left(queue)),
            None => None,
        },
        missed_unlock: false,
        ..sink
    }
}

/// What is done with a mapped buffer for this many peers.
pub open spec fn rendered(
    sink: WebSinkView,
    num_peers: i32,
    data: Seq<u8>,
    duration: Option<u64>,
    rendering: Rendering,
) -> bool {
    if num_peers <= 0 {
        rendering is NoPeers
    } else if sink.track is None {
        rendering is NoTrack
    } else if sink.runtime is None {
        rendering is NoRuntime
    } else {
        rendering matches Rendering::Send { sample, track, runtime } && {
            &&& buffer_bytes(sample.data) == data
            &&& sample.duration_nanos == frame_nanos(duration)
            &&& sink.track == Some(*track)
            &&& sink.runtime == Some(*runtime)
        }
    }
}

/// What setting the element up gives, with the WebRTC stack or the failure to
/// make one.
pub open spec fn set_up(
    before: WebSinkView,
    runtime: Runtime,
    api: Result<API, String>,
    after: WebSinkView,
    started: Result<Listen, String>,
) -> bool {
    match api {
        Ok(api) => {
            &&& after.track matches Some(track) && track_labels(*track) == video_labels()
            &&& after == running(before, runtime, api, after.track->0)
            &&& started matches Ok(listen) && listen.port == before.settings.port
                && listen.config@ == stun_servers(before.settings.stun_server) && after.track
                == Some(listen.track)
        },
        Err(error) => after == before && (started matches Err(message) && message@
            == "Failed to create WebRTC API: "@ + error@),
    }
}

impl State {
    /// Nothing is held.
    pub closed spec fn is_empty(&self) -> bool {
        &&& self.runtime is None
        &&& self.server_handle is None
        &&& self.peer_connections@ == Map::<Seq<char>, Arc<RTCPeerConnection>>::empty()
        &&& self.signal is None
        &&& !self.missed_unlock
        &&& self.webrtc_api is None
        &&& self.video_track is None
        &&& self.webrtc_config is None
    }
}

impl Default for State {
    fn default() -> (state: Self)
        ensures
            state.is_empty(),
    {
        State {
            runtime: None,
            server_handle: None,
            peer_connections: StringHashMap::new(),
            signal: None,
            missed_unlock: false,
            webrtc_api: None,
            video_track: None,
            webrtc_config: None,
        }
    }
}

impl Default for WebSink {
    fn default() -> (sink: Self)
        ensures
            sink.wf(),
            sink@ == idle(default_settings()),
    {
        WebSink { settings: Settings::default(), state: State::default(), num_peers: 0 }
    }
}

impl WebSink {
    /// The element is consistent, and so is its channel.
    pub closed spec fn wf(&self) -> bool {
        consistent(self@) && (self.state.signal matches Some(signal) ==> signal.wf())
    }

    /// Sets a property by its name.
    pub fn set_property(&mut self, name: &str, value: PropertyValue)
        requires
            old(self).wf(),
            accepts(name@, value@),
        ensures
            final(self).wf(),
            final(self)@ == (WebSinkView {
                settings: with_property(old(self)@.settings, name@, value@),
                ..old(self)@
            }),
    {
        self.settings.set_property(name, value)
    }

    /// Reads a property by its name.
    pub fn property(&self, name: &str) -> (value: PropertyValue)
        requires
            kind_of_name(name@) is Some,
        ensures
            value@ == property_of(self@.settings, name@),
    {
        self.settings.property(name)
    }

    /// The peer count.
    pub fn num_peers(&self) -> (num_peers: i32)
        ensures
            num_peers == self@.num_peers,
    {
        self.num_peers
    }

    /// The runtime, while the element runs.
    pub fn runtime(&self) -> (runtime: Option<&Runtime>)
        ensures
            match runtime {
                Some(runtime) => self@.runtime == Some(*runtime),
                None => self@.runtime is None,
            },
    {
        self.state.runtime.as_ref()
    }

    /// Sets the element up on a runtime, with the WebRTC stack or the failure
    /// to make one. A failure changes nothing.
    pub fn start_with(&mut self, runtime: Runtime, api: Result<API, String>) -> (started: Result<
        Listen,
        String,
    >)
        requires
            old(self).wf(),
        ensures
            final(self).wf(),
            set_up(old(self)@, runtime, api, final(self)@, started),
            started matches Ok(listen) ==> listen.port == old(self)@.settings.port
                && final(self)@.track == Some(listen.track) && final(self)@.config == Some(
                listen.config@,
            ),
    {
        let signal = Signal::new();
        let api = match api {
            Ok(api) => api,
            Err(error) => {
                return Err("Failed to create WebRTC API: ".to_owned().concat(error.as_str()));
            },
        };
        let track = video_track();
        let config = self.settings.webrtc_configuration();
        let port = self.settings.port;
        let listen = Listen { port, config: config.clone(), track: share_track(&track) };
        self.state.runtime = Some(runtime);
        self.state.signal = Some(signal);
        self.state.missed_unlock = false;
        self.state.webrtc_api = Some(api);
        self.state.video_track = Some(track);
        self.state.webrtc_config = Some(config);
        assert(self@ =~= running(old(self)@, runtime, api, track));
        Ok(listen)
    }

    /// Starts the element, given a runtime or the failure to make one. With a
    /// runtime the start succeeds and asks for the HTTP server; without one it
    /// changes nothing.
    pub fn start(&mut self, runtime: Result<Runtime, String>) -> (started: Result<Listen, String>)
        requires
            old(self).wf(),
        ensures
            final(self).wf(),
            match runtime {
                Ok(runtime) => started is Ok && (final(self)@.api matches Some(api) && set_up(
                    old(self)@,
                    runtime,
                    Ok(api),
                    final(self)@,
                    started,
                )),
                Err(error) => final(self)@ == old(self)@ && (started matches Err(message)
                    && message@ == "Failed to create Tokio runtime: "@ + error@),
            },
            started matches Ok(listen) ==> listen.port == old(self)@.settings.port
                && final(self)@.track == Some(listen.track) && final(self)@.config == Some(
                listen.config@,
            ),
    {
        match runtime {
            Ok(runtime) => {
                let api = create_api();
                self.start_with(runtime, api)
            },
            Err(error) => Err(
                "Failed to create Tokio runtime: ".to_owned().concat(error.as_str()),
            ),
        }
    }

    /// Takes note of the HTTP server that was started for the element.
    pub fn serve(&mut self, server: JoinHandle<()>)
        requires
            old(self).wf(),
            old(self)@.runtime is Some,
        ensures
            final(self).wf(),
            final(self)@ == serving(old(self)@, server),
    {
        self.state.server_handle = Some(server);
    }

    /// Stops the element: it keeps its settings and nothing else.
    pub fn stop(&mut self) -> (teardown: Teardown)
        requires
            old(self).wf(),
        ensures
            final(self).wf(),
            final(self)@ == idle(old(self)@.settings),
            teardown.server_handle == old(self)@.server_handle,
            teardown.runtime == old(self)@.runtime,
            teardown.peer_count == old(self)@.peers.len(),
    {
        let server_handle = self.state.server_handle.take();
        let peer_count = self.state.peer_connections.len();
        self.state.peer_connections.clear();
        self.state.signal = None;
        self.state.missed_unlock = false;
        let runtime = self.state.runtime.take();
        self.state.webrtc_api = None;
        self.state.video_track = None;
        self.state.webrtc_config = None;
        self.num_peers = 0;
        assert(self@ =~= idle(old(self)@.settings));
        Teardown { server_handle, runtime, peer_count }
    }

    /// Decides whether a buffer is looked at: in live mode it has to wait for
    /// a peer.
    pub fn begin_render(&self) -> (admitted: Admission)
        ensures
            admitted == admission(self@),
    {
        let num_peers = self.num_peers;
        if self.settings.is_live && num_peers == 0 {
            Admission::Wait
        } else {
            Admission::Read { num_peers }
        }
    }

    /// Decides what is done with a buffer that waits, after receiving the
    /// oldest message. To be called before a render blocks, and again each
    /// time the element may have changed.
    pub fn resume_render(&mut self) -> (admitted: Admission)
        requires
            old(self).wf(),
        ensures
            final(self).wf(),
            final(self)@ == resumed(old(self)@),
            admitted == resumption(old(self)@),
    {
        let missed_unlock = self.state.missed_unlock;
        self.state.missed_unlock = false;
        let message = match self.state.signal.take() {
            Some(mut signal) => {
                let message = signal.try_receive();
                self.state.signal = Some(signal);
                message
            },
            None => None,
        };
        let admitted = self.begin_render();
        let unlock_asked = match message {
            Some(message) => missed_unlock || message == UNLOCK_MESSAGE,
            None => missed_unlock,
        };
        if unlock_asked {
            return Admission::GiveUp;
        }
        match (admitted, &self.state.signal) {
            (Admission::Wait, None) => Admission::GiveUp,
            _ => admitted,
        }
    }

    /// Decides what is done with an admitted buffer, whose bytes are missing
    /// if it could not be mapped.
    pub fn render<'a>(&'a self, num_peers: i32, data: Option<&[u8]>, duration: Option<u64>) -> (r:
        Result<Rendering<'a>, FlowError>)
        ensures
            match data {
                Some(data) => r matches Ok(rendering) && rendered(
                    self@,
                    num_peers,
                    data@,
                    duration,
                    rendering,
                ),
                None => r == Err::<Rendering<'a>, FlowError>(FlowError::Error),
            },
            r matches Ok(Rendering::Send { sample, .. }) ==> match duration {
                Some(nanos) => sample.duration_nanos == nanos,
                None => sample.duration_nanos == 33_333_333,
            },
    {
        let data = match data {
            Some(data) => data,
            None => {
                return Err(FlowError::Error);
            },
        };
        if num_peers <= 0 {
            return Ok(Rendering::NoPeers);
        }
        match (&self.state.video_track, &self.state.runtime) {
            (None, _) => Ok(Rendering::NoTrack),
            (Some(_), None) => Ok(Rendering::NoRuntime),
            (Some(track), Some(runtime)) => Ok(
                Rendering::Send { sample: Sample::new(data, duration), track, runtime },
            ),
        }
    }

    fn send_signal(&mut self, message: i32) -> (sent: Option<Sent>)
        requires
            old(self).wf(),
        ensures
            final(self).wf(),
            final(self)@ == signaled(old(self)@, message),
            sent == signal_outcome(old(self)@),
    {
        match self.state.signal.take() {
            Some(mut signal) => {
                let sent = signal.try_send(message);
                self.state.signal = Some(signal);
                Some(sent)
            },
            None => None,
        }
    }

    /// Asks a waiting render to give up. A request that the channel has no
    /// room for is remembered.
    pub fn unlock(&mut self) -> (sent: Option<Sent>)
        requires
            old(self).wf(),
        ensures
            final(self).wf(),
            final(self)@ == unlocked(old(self)@),
            sent == signal_outcome(old(self)@),
    {
        let sent = self.send_signal(UNLOCK_MESSAGE);
        if let Some(Sent::Full) = sent {
            self.state.missed_unlock = true;
        }
        sent
    }

    /// Adds or removes a peer's connection, stores the new peer count and
    /// announces it.
    pub fn update_peer_connections(
        &mut self,
        peer_id: String,
        connection: Option<Arc<RTCPeerConnection>>,
        add: bool,
    ) -> (update: PeerUpdate)
        requires
            old(self).wf(),
        ensures
            final(self).wf(),
            final(self)@ == updated(old(self)@, peer_id@, connection, add),
            update.change == peer_change(old(self)@.peers, peer_id@, connection, add),
            update.count == final(self)@.num_peers,
            update.signal == signal_outcome(old(self)@),
    {
        let change = if add {
            match connection {
                Some(connection) => {
                    self.state.peer_connections.insert(peer_id, connection);
                    PeerChange::Added
                },
                None => PeerChange::NotAdded,
            }
        } else if self.state.peer_connections.contains_key(peer_id.as_str()) {
            self.state.peer_connections.remove(peer_id.as_str());
            PeerChange::Removed
        } else {
            assert(self@.peers.remove(peer_id@) =~= self@.peers);
            PeerChange::NotRemoved
        };
        let count = self.state.peer_connections.len() as i32;
        self.num_peers = count;
        let signal = self.send_signal(count);
        PeerUpdate { change, count, signal }
    }

    /// Takes note of a browser that was answered: from now on it is a peer,
    /// under the id of its session.
    pub fn session_connected(
        &mut self,
        response: &SessionResponse,
        connection: Arc<RTCPeerConnection>,
    ) -> (update: PeerUpdate)
        requires
            old(self).wf(),
        ensures
            final(self).wf(),
            final(self)@ == updated(old(self)@, response.session_id@, Some(connection), true),
            update.change == PeerChange::Added,
            update.count == final(self)@.num_peers,
            update.signal == signal_outcome(old(self)@),
    {
        self.update_peer_connections(response.session_id.clone(), Some(connection), true)
    }
}

/// Between any two calls the element is consistent.
pub proof fn law_always_consistent(sink: WebSink)
    requires
        sink.wf(),
    ensures
        consistent(sink@),
{
}

/// What may be done to an element between its start and its stop.
pub enum Call {
    SetProperty { name: Seq<char>, value: PropertyValueView },
    Serve { server: JoinHandle<()> },
    ResumeRender,
    Unlock,
    UpdatePeerConnections {
        peer_id: Seq<char>,
        connection: Option<Arc<RTCPeerConnection>>,
        add: bool,
    },
}

/// The element after a call.
pub open spec fn after_call(sink: WebSinkView, call: Call) -> WebSinkView {
    match call {
        Call::SetProperty { name, value } => WebSinkView {
            settings: with_property(sink.settings, name, value),
            ..sink
        },
        Call::Serve { server } => serving(sink, server),
        Call::ResumeRender => resumed(sink),
        Call::Unlock => unlocked(sink),
        Call::UpdatePeerConnections { peer_id, connection, add } => updated(
            sink,
            peer_id,
            connection,
            add,
        ),
    }
}

/// The element after some calls, one after the other.
pub open spec fn after_calls(sink: WebSinkView, calls: Seq<Call>) -> WebSinkView
    decreases calls.len(),
{
    if calls.len() == 0 {
        sink
    } else {
        after_call(after_calls(sink, calls.drop_last()), calls.last())
    }
}

/// Starting, stopping and every call between them leave a consistent element
/// consistent.
pub proof fn law_calls_keep_consistency(
    sink: WebSinkView,
    runtime: Runtime,
    api: API,
    track: Arc<TrackLocalStaticSample>,
    settings: SettingsView,
    call: Call,
)
    requires
        consistent(sink),
        track_labels(*track) == video_labels(),
    ensures
        consistent(running(sink, runtime, api, track)),
        consistent(idle(settings)),
        (call is Serve ==> sink.runtime is Some) ==> consistent(after_call(sink, call)),
{
}

/// From its start to its stop an element stays consistent and keeps its
/// runtime, its WebRTC stack, its track and its configuration, whatever calls
/// come.
pub proof fn law_calls_keep_the_run(sink: WebSinkView, calls: Seq<Call>)
    requires
        consistent(sink),
        sink.runtime is Some,
    ensures
        ({
            let after = after_calls(sink, calls);
            &&& consistent(after)
            &&& after.runtime == sink.runtime
            &&& after.api == sink.api
            &&& after.track == sink.track
            &&& after.config == sink.config
        }),
    decreases calls.len(),
{
    if calls.len() > 0 {
        law_calls_keep_the_run(sink, calls.drop_last());
    }
}

/// Stopping undoes starting: what is left is what stopping alone would leave.
pub proof fn law_stop_undoes_start(
    sink: WebSinkView,
    runtime: Runtime,
    api: API,
    track: Arc<TrackLocalStaticSample>,
    server: JoinHandle<()>,
)
    ensures
        idle(serving(running(sink, runtime, api, track), server).settings) == idle(sink.settings),
{
}

/// An element that is idle stays as it is when it is stopped.
pub proof fn law_stop_is_idempotent(settings: SettingsView)
    ensures
        idle(idle(settings).settings) == idle(settings),
{
}

/// A peer that was not there is counted once it is added, and adding it again
/// changes the count no more.
pub proof fn law_peers_are_counted_once(
    sink: WebSinkView,
    peer_id: Seq<char>,
    first: Arc<RTCPeerConnection>,
    second: Arc<RTCPeerConnection>,
)
    requires
        consistent(sink),
        !sink.peers.contains_key(peer_id),
        sink.peers.len() < i32::MAX,
    ensures
        updated(sink, peer_id, Some(first), true).num_peers == sink.num_peers + 1,
        updated(updated(sink, peer_id, Some(first), true), peer_id, Some(second), true).num_peers
            == sink.num_peers + 1,
{
    broadcast use vstd::set::group_set_axioms, vstd::map::group_map_axioms;

    assert(sink.peers.insert(peer_id, first).insert(peer_id, second).dom() =~= sink.peers.insert(
        peer_id,
        first,
    ).dom());
}

/// Removing a peer that was just added leaves the peers and their count as
/// they were before.
pub proof fn law_remove_undoes_add(
    sink: WebSinkView,
    peer_id: Seq<char>,
    connection: Arc<RTCPeerConnection>,
    absent: Option<Arc<RTCPeerConnection>>,
)
    requires
        consistent(sink),
        !sink.peers.contains_key(peer_id),
    ensures
        updated(updated(sink, peer_id, Some(connection), true), peer_id, absent, false).peers
            == sink.peers,
        updated(updated(sink, peer_id, Some(connection), true), peer_id, absent, false).num_peers
            == sink.num_peers,
{
    assert(sink.peers.insert(peer_id, connection).remove(peer_id) =~= sink.peers);
}

/// Removing a peer that is not there leaves the peers and their count.
pub proof fn law_removing_a_stranger_changes_no_peer(
    sink: WebSinkView,
    peer_id: Seq<char>,
    connection: Option<Arc<RTCPeerConnection>>,
)
    requires
        consistent(sink),
        !sink.peers.contains_key(peer_id),
    ensures
        updated(sink, peer_id, connection, false).peers == sink.peers,
        updated(sink, peer_id, connection, false).num_peers == sink.num_peers,
{
    assert(sink.peers.remove(peer_id) =~= sink.peers);
}

/// A change of one peer leaves the connections of all other peers.
pub proof fn law_other_peers_stay(
    sink: WebSinkView,
    peer_id: Seq<char>,
    connection: Option<Arc<RTCPeerConnection>>,
    add: bool,
    other: Seq<char>,
)
    requires
        other != peer_id,
    ensures
        updated(sink, peer_id, connection, add).peers.contains_key(other)
            == sink.peers.contains_key(other),
        sink.peers.contains_key(other) ==> updated(sink, peer_id, connection, add).peers[other]
            == sink.peers[other],
{
}

/// A buffer has to wait exactly in live mode without any peer.
pub proof fn law_live_mode_waits_for_peers(sink: WebSinkView)
    requires
        consistent(sink),
        sink.peers.len() <= i32::MAX,
    ensures
        admission(sink) is Wait <==> sink.settings.is_live && sink.peers == Map::<
            Seq<char>,
            Arc<RTCPeerConnection>,
        >::empty(),
        !sink.settings.is_live ==> !(resumption(sink) is Wait),
{
    broadcast use vstd::set::group_set_axioms, vstd::map::group_map_axioms;

    if sink.peers.len() == 0 {
        assert(sink.peers.dom() =~= Set::empty());
        assert(sink.peers =~= Map::empty());
    }
}

/// A peer ends the wait of a live element: its buffer is read for at least one
/// peer, unless the render was asked to give up as well.
pub proof fn law_a_peer_ends_the_wait(
    sink: WebSinkView,
    peer_id: Seq<char>,
    connection: Arc<RTCPeerConnection>,
)
    requires
        consistent(sink),
        sink.peers.len() < i32::MAX,
    ensures
        ({
            let after = updated(sink, peer_id, Some(connection), true);
            if unlock_asked(after) {
                resumption(after) is GiveUp
            } else {
                resumption(after) matches Admission::Read { num_peers } && num_peers > 0
            }
        }),
{
    broadcast use vstd::set::group_set_axioms, vstd::map::group_map_axioms;

    let peers = sink.peers.insert(peer_id, connection);
    assert(peers.dom().contains(peer_id));
    assert(0 < peers.len() <= i32::MAX);
}

/// An unlock ends the wait of a running element, whatever its channel holds,
/// and whatever else is done before the render resumes.
pub proof fn law_an_unlock_ends_the_wait(sink: WebSinkView, calls: Seq<Call>)
    requires
        consistent(sink),
        sink.runtime is Some,
        forall|i: int| 0 <= i < calls.len() ==> !((#[trigger] calls[i]) is ResumeRender),
    ensures
        resumption(after_calls(unlocked(sink), calls)) is GiveUp,
    decreases calls.len(),
{
    if calls.len() > 0 {
        law_an_unlock_ends_the_wait(sink, calls.drop_last());
        law_calls_keep_the_run(unlocked(sink), calls.drop_last());
        assert(!(calls[calls.len() - 1] is ResumeRender));
    }
}

/// Stopping ends the wait.
pub proof fn law_a_stop_ends_the_wait(settings: SettingsView)
    ensures
        !(resumption(idle(settings)) is Wait),
{
}

/// Nothing but a peer, an unlock or the end of live mode ends the wait: while
/// none of them comes, the render keeps waiting, whatever else is done.
pub proof fn law_nothing_else_ends_the_wait(sink: WebSinkView, calls: Seq<Call>)
    requires
        consistent(sink),
        sink.runtime is Some,
        !unlock_asked(sink),
        forall|i: int| 0 <= i < calls.len() ==> !((#[trigger] calls[i]) is Unlock),
        forall|i: int|
            0 <= i <= calls.len() ==> (#[trigger] after_calls(sink, calls.take(i))).peers.len()
                <= i32::MAX,
        waits(after_calls(sink, calls)),
    ensures
        resumption(after_calls(sink, calls)) is Wait,
{
    lemma_no_unlock_asked(sink, calls);
    law_calls_keep_the_run(sink, calls);
}

/// A render is asked to give up only by an unlock.
proof fn lemma_no_unlock_asked(sink: WebSinkView, calls: Seq<Call>)
    requires
        consistent(sink),
        sink.runtime is Some,
        !unlock_asked(sink),
        forall|i: int| 0 <= i < calls.len() ==> !((#[trigger] calls[i]) is Unlock),
        forall|i: int|
            0 <= i <= calls.len() ==> (#[trigger] after_calls(sink, calls.take(i))).peers.len()
                <= i32::MAX,
    ensures
        !unlock_asked(after_calls(sink, calls)),
    decreases calls.len(),
{
    if calls.len() > 0 {
        let before = calls.drop_last();
        assert forall|i: int| 0 <= i <= before.len() implies (#[trigger] after_calls(
            sink,
            before.take(i),
        )).peers.len() <= i32::MAX by {
            assert(before.take(i) =~= calls.take(i));
        }
        lemma_no_unlock_asked(sink, before);
        law_calls_keep_the_run(sink, before);
        assert(!(calls[calls.len() - 1] is Unlock));
        assert(calls.take(calls.len() as int) =~= calls);
    }
}

/// A render that keeps waiting leaves the channel empty, so that the next
/// message finds room.
pub proof fn law_a_waiting_render_leaves_room(sink: WebSinkView)
    requires
        consistent(sink),
        resumption(sink) is Wait,
    ensures
        resumed(sink).pending == Some(Seq::<i32>::empty()),
        signal_outcome(resumed(sink)) == Some(Sent::Delivered),
{
    assert(sink.pending->0.skip(1) =~= Seq::empty() || sink.pending->0 =~= Seq::empty());
}

/// While the element runs, every buffer that was read for at least one peer
/// is sent, with its own bytes.
pub proof fn law_running_element_sends(
    sink: WebSinkView,
    num_peers: i32,
    data: Seq<u8>,
    duration: Option<u64>,
    rendering: Rendering,
)
    requires
        consistent(sink),
        sink.runtime is Some,
        num_peers > 0,
        rendered(sink, num_peers, data, duration, rendering),
    ensures
        rendering matches Rendering::Send { sample, track, .. } && buffer_bytes(sample.data) == data
            && track_labels(**track) == video_labels(),
{
}

/// An element never has a track to write to without a runtime to write on.
pub proof fn law_track_has_runtime(
    sink: WebSinkView,
    num_peers: i32,
    data: Seq<u8>,
    duration: Option<u64>,
    rendering: Rendering,
)
    requires
        consistent(sink),
        rendered(sink, num_peers, data, duration, rendering),
    ensures
        !(rendering is NoRuntime),
{
}

/// The first message after a start waits on the channel, and every later one
/// is refused and leaves it waiting.
pub proof fn law_first_signal_waits(
    sink: WebSinkView,
    runtime: Runtime,
    api: API,
    track: Arc<TrackLocalStaticSample>,
    first: i32,
    second: i32,
)
    ensures
        ({
            let started = running(sink, runtime, api, track);
            let once = signaled(started, first);
            &&& signal_outcome(started) == Some(Sent::Delivered)
            &&& once.pending == Some(seq![first])
            &&& signal_outcome(once) == Some(Sent::Full)
            &&& signaled(once, second) == once
        }),
{
    assert(Seq::<i32>::empty().push(first) =~= seq![first]);
}

/// Every browser that a running element answered gets its video. The answer is
/// given on a connection to which the element's own track was added. As long as
/// the session is among the peers, every buffer is admitted, and what it holds
/// is sent on that track.
pub proof fn law_answered_sessions_get_the_video(
    before: WebSinkView,
    runtime: Runtime,
    api: API,
    started: WebSinkView,
    listen: Listen,
    request: SessionRequest,
    session_api: API,
    steps: Seq<(SessionPhase, SessionAction)>,
    events: Seq<SessionEvent>,
    response: SessionResponse,
    earlier: Seq<Call>,
    connection: Arc<RTCPeerConnection>,
    later: Seq<Call>,
    sink: WebSinkView,
    data: Seq<u8>,
    duration: Option<u64>,
    rendering: Rendering,
)
    requires
        consistent(before),
        set_up(before, runtime, Ok(api), started, Ok(listen)),
        connects(request.offer, listen.config@, listen.track, Ok(session_api), steps[0]),
        negotiates(steps, events),
        steps.last().1 == SessionAction::Reply(response),
        sink == after_calls(
            updated(
                after_calls(started, earlier),
                response.session_id@,
                Some(connection),
                true,
            ),
            later,
        ),
        sink.peers.contains_key(response.session_id@),
        sink.peers.len() <= i32::MAX,
        rendered(sink, sink.num_peers, data, duration, rendering),
    ensures
        steps[1].1 == (SessionAction::AddTrack { track: listen.track }),
        admission(sink) == (Admission::Read { num_peers: sink.num_peers }),
        rendering matches Rendering::Send { sample, track, .. } && *track == listen.track
            && buffer_bytes(sample.data) == data,
{
    broadcast use vstd::set::group_set_axioms, vstd::map::group_map_axioms;

    law_answered_session_has_the_track(request.offer, listen.track, steps, events);
    law_calls_keep_the_run(started, earlier);
    let connected = updated(
        after_calls(started, earlier),
        response.session_id@,
        Some(connection),
        true,
    );
    law_calls_keep_the_run(connected, later);
    assert(sink.peers.dom().contains(response.session_id@));
    assert(sink.peers.len() > 0);
}

/// The fields that starting, serving and stopping are about are the same in
/// both.
pub open spec fn same_run(before: WebSinkView, after: WebSinkView) -> bool {
    &&& after.runtime == before.runtime
    &&& after.server_handle == before.server_handle
    &&& after.api == before.api
    &&& after.track == before.track
    &&& after.config == before.config
}

/// Whatever an element is set up with, the server is asked for on the port that
/// can be read from the element, and the peer connections are made with the one
/// server that can be read from it, or with none if that is empty.
pub proof fn law_the_setup_follows_the_properties(
    before: WebSinkView,
    runtime: Runtime,
    api: API,
    after: WebSinkView,
    listen: Listen,
)
    requires
        set_up(before, runtime, Ok(api), after, Ok(listen)),
    ensures
        property_of(before.settings, "port"@) == PropertyValueView::UInt(listen.port as u32),
        match property_of(before.settings, "stun-server"@) {
            PropertyValueView::Text(Some(text)) => if text.len() == 0 {
                listen.config@.len() == 0
            } else {
                listen.config@.len() == 1 && listen.config@[0].len() == 1 && listen.config@[0][0]
                    == text
            },
            _ => false,
        },
        after.config == Some(listen.config@),
        after.track == Some(listen.track),
{
    lemma_property_names();
}

/// A sample that is sent lasts as long as its buffer says; only one whose
/// buffer does not say lasts a thirtieth of a second.
pub proof fn law_a_sent_sample_lasts_as_its_buffer_says(
    sink: WebSinkView,
    num_peers: i32,
    data: Seq<u8>,
    nanos: u64,
    timed: Rendering,
    untimed: Rendering,
)
    requires
        rendered(sink, num_peers, data, Some(nanos), timed),
        rendered(sink, num_peers, data, None, untimed),
    ensures
        timed matches Rendering::Send { sample, .. } ==> sample.duration_nanos == nanos,
        untimed matches Rendering::Send { sample, .. } ==> sample.duration_nanos == 33_333_333,
        timed is Send <==> untimed is Send,
{
}

/// The port that was set last is the one that the server is asked for, whatever
/// port it is and whatever is done before the start.
pub proof fn law_the_server_listens_on_the_set_port(
    name: &str,
    port: u32,
    runtime: Runtime,
    started: Result<Listen, String>,
    calls: Seq<Call>,
)
    requires
        name@ == "port"@,
        port <= 65535,
        forall|i: int|
            0 <= i < calls.len() ==> ((#[trigger] calls[i]) matches Call::SetProperty {
                name: other,
                ..
            } ==> other != "port"@),
    ensures
        forall|set: &mut WebSink, start: &mut WebSink|
            (#[trigger] call_ensures(
                WebSink::set_property,
                (set, name, PropertyValue::UInt(port)),
                (),
            )) && (*start)@ == after_calls((*final(set))@, calls) && (#[trigger] call_ensures(
                WebSink::start,
                (start, Ok(runtime)),
                started,
            )) ==> (started matches Ok(listen) && listen.port == port),
{
    assert forall|set: &mut WebSink, start: &mut WebSink|
        (#[trigger] call_ensures(
            WebSink::set_property,
            (set, name, PropertyValue::UInt(port)),
            (),
        )) && (*start)@ == after_calls((*final(set))@, calls) && (#[trigger] call_ensures(
            WebSink::start,
            (start, Ok(runtime)),
            started,
        )) implies (started matches Ok(listen) && listen.port == port) by {
        lemma_property_names();
        lemma_calls_keep_the_port((*final(set))@, calls);
    }
}

/// Only setting the port changes the port.
proof fn lemma_calls_keep_the_port(sink: WebSinkView, calls: Seq<Call>)
    requires
        forall|i: int|
            0 <= i < calls.len() ==> ((#[trigger] calls[i]) matches Call::SetProperty {
                name: other,
                ..
            } ==> other != "port"@),
    ensures
        after_calls(sink, calls).settings.port == sink.settings.port,
    decreases calls.len(),
{
    if calls.len() > 0 {
        let before = calls.drop_last();
        assert(forall|i: int| 0 <= i < before.len() ==> before[i] == #[trigger] calls[i]);
        lemma_calls_keep_the_port(sink, before);
        lemma_property_names();
        assert(calls[calls.len() - 1] == calls.last());
    }
}

/// The STUN server that was set is the one that the peer connections use, of
/// whatever length it is; the empty one stands for none.
pub proof fn law_connections_use_the_set_stun_server(
    name: &str,
    text: String,
    runtime: Runtime,
    started: Result<Listen, String>,
)
    requires
        name@ == "stun-server"@,
    ensures
        forall|set: &mut WebSink, start: &mut WebSink|
            (#[trigger] call_ensures(
                WebSink::set_property,
                (set, name, PropertyValue::Text(Some(text))),
                (),
            )) && (*start)@ == (*final(set))@ && (#[trigger] call_ensures(
                WebSink::start,
                (start, Ok(runtime)),
                started,
            )) ==> (started matches Ok(listen) && if text@.len() == 0 {
                listen.config.ice_servers.len() == 0
            } else {
                &&& listen.config.ice_servers.len() == 1
                &&& listen.config.ice_servers[0].urls.len() == 1
                &&& listen.config.ice_servers[0].urls[0]@ == text@
            }),
{
    assert forall|set: &mut WebSink, start: &mut WebSink|
        (#[trigger] call_ensures(
            WebSink::set_property,
            (set, name, PropertyValue::Text(Some(text))),
            (),
        )) && (*start)@ == (*final(set))@ && (#[trigger] call_ensures(
            WebSink::start,
            (start, Ok(runtime)),
            started,
        )) implies (started matches Ok(listen) && if text@.len() == 0 {
        listen.config.ice_servers.len() == 0
    } else {
        &&& listen.config.ice_servers.len() == 1
        &&& listen.config.ice_servers[0].urls.len() == 1
        &&& listen.config.ice_servers[0].urls[0]@ == text@
    }) by {
        lemma_property_names();
        let config = started->Ok_0.config;
        assert(config@ == stun_servers(text@));
        assert(config@.len() == config.ice_servers.len());
        if text@.len() > 0 {
            assert(config@[0] == config.ice_servers[0]@);
            assert(config.ice_servers[0]@.len() == config.ice_servers[0].urls.len());
            assert(config.ice_servers[0]@[0] == config.ice_servers[0].urls[0]@);
        }
    }
}

/// The live mode that was set decides whether a buffer waits while there is no
/// peer.
pub proof fn law_the_set_live_mode_decides(name: &str, flag: bool, admitted: Admission)
    requires
        name@ == "is-live"@,
    ensures
        forall|set: &mut WebSink|
            (#[trigger] call_ensures(
                WebSink::set_property,
                (set, name, PropertyValue::Flag(flag)),
                (),
            )) && call_ensures(WebSink::begin_render, (&*final(set),), admitted) && (*set)@.num_peers
                == 0 ==> admitted == (if flag {
                Admission::Wait
            } else {
                Admission::Read { num_peers: 0 }
            }),
{
    lemma_property_names();
}

/// Setting a property leaves the run, the peers and the channel alone.
pub proof fn law_settings_leave_the_run_alone(name: &str, value: PropertyValue)
    ensures
        forall|sink: &mut WebSink| #[trigger]
            call_ensures(WebSink::set_property, (sink, name, value), ()) ==> {
                &&& same_run((*sink)@, (*final(sink))@)
                &&& (*final(sink))@.peers == (*sink)@.peers
                &&& (*final(sink))@.num_peers == (*sink)@.num_peers
                &&& (*final(sink))@.pending == (*sink)@.pending
                &&& (*final(sink))@.missed_unlock == (*sink)@.missed_unlock
            },
{
}

/// What is read from the element is what its settings hold.
pub proof fn law_the_element_shows_its_settings(sink: &WebSink, name: &str, read: PropertyValue)
    requires
        call_ensures(WebSink::property, (sink, name), read),
    ensures
        name@ == "port"@ ==> read == PropertyValue::UInt(sink@.settings.port as u32),
        name@ == "stun-server"@ ==> (read matches PropertyValue::Text(Some(text)) && text@
            == sink@.settings.stun_server),
        name@ == "is-live"@ ==> read == PropertyValue::Flag(sink@.settings.is_live),
{
    lemma_property_names();
    assert(read@ == property_of(sink@.settings, name@));
}

/// A runtime is shown exactly while the element has one, and it is that one.
pub proof fn law_the_element_shows_its_runtime(sink: &WebSink, shown: Option<&Runtime>)
    requires
        call_ensures(WebSink::runtime, (sink,), shown),
    ensures
        shown is Some <==> sink@.runtime is Some,
        shown matches Some(runtime) ==> sink@.runtime == Some(*runtime),
{
}

/// Given a runtime the element starts: it holds that runtime, a track and a
/// stack, its channel is open and empty, and it hands out its own track and
/// configuration. Its settings, its peers and its server stay.
pub proof fn law_a_started_element_runs(runtime: Runtime, started: Result<Listen, String>)
    ensures
        forall|sink: &mut WebSink| #[trigger]
            call_ensures(WebSink::start, (sink, Ok(runtime)), started) ==> {
                let before = (*sink)@;
                let after = (*final(sink))@;
                &&& started matches Ok(listen) && after.track == Some(listen.track) && after.config
                    == Some(listen.config@) && listen.port == before.settings.port
                &&& after.runtime == Some(runtime)
                &&& after.api is Some
                &&& after.pending == Some(Seq::<i32>::empty())
                &&& !after.missed_unlock
                &&& after.settings == before.settings
                &&& after.peers == before.peers
                &&& after.num_peers == before.num_peers
                &&& after.server_handle == before.server_handle
            },
{
}

/// Without a runtime or without a stack the start fails, reports the whole
/// reason and changes nothing; with both it succeeds on them.
pub proof fn law_a_failed_start_changes_nothing(
    runtime: Runtime,
    api: API,
    error: String,
    started: Result<Listen, String>,
)
    ensures
        forall|sink: &mut WebSink| #[trigger]
            call_ensures(WebSink::start, (sink, Err(error)), started) ==> (*final(sink))@
                == (*sink)@ && (started matches Err(message) && message@
                == "Failed to create Tokio runtime: "@ + error@),
        forall|sink: &mut WebSink| #[trigger]
            call_ensures(WebSink::start_with, (sink, runtime, Err(error)), started)
                ==> (*final(sink))@ == (*sink)@ && (started matches Err(message) && message@
                == "Failed to create WebRTC API: "@ + error@),
        forall|sink: &mut WebSink| #[trigger]
            call_ensures(WebSink::start_with, (sink, runtime, Ok(api)), started) ==> {
                &&& started matches Ok(listen) && listen.port == (*sink)@.settings.port
                &&& (*final(sink))@.runtime == Some(runtime)
                &&& (*final(sink))@.api == Some(api)
            },
{
}

/// The server that was taken note of is held, and nothing else changes.
pub proof fn law_the_server_is_noted(server: JoinHandle<()>)
    ensures
        forall|sink: &mut WebSink| #[trigger]
            call_ensures(WebSink::serve, (sink, server), ()) ==> {
                let before = (*sink)@;
                let after = (*final(sink))@;
                &&& after.server_handle == Some(server)
                &&& after.settings == before.settings
                &&& after.runtime == before.runtime
                &&& after.api == before.api
                &&& after.track == before.track
                &&& after.config == before.config
                &&& after.peers == before.peers
                &&& after.num_peers == before.num_peers
                &&& after.pending == before.pending
                &&& after.missed_unlock == before.missed_unlock
            },
{
}

/// Stopping hands out what has to be ended, counts the peers that are let go,
/// and leaves the settings and nothing else.
pub proof fn law_a_stop_leaves_the_settings_alone(teardown: Teardown)
    ensures
        forall|sink: &mut WebSink| #[trigger]
            call_ensures(WebSink::stop, (sink,), teardown) ==> {
                let before = (*sink)@;
                let after = (*final(sink))@;
                &&& teardown.server_handle == before.server_handle
                &&& teardown.runtime == before.runtime
                &&& teardown.peer_count == before.peers.len()
                &&& after.settings == before.settings
                &&& after.runtime is None
                &&& after.server_handle is None
                &&& after.api is None
                &&& after.track is None
                &&& after.config is None
                &&& after.pending is None
                &&& !after.missed_unlock
                &&& after.peers == Map::<Seq<char>, Arc<RTCPeerConnection>>::empty()
                &&& after.num_peers == 0
            },
{
}

/// The peer count is the number of peers.
pub proof fn law_the_count_is_the_number_of_peers(sink: &WebSink, num_peers: i32)
    requires
        sink.wf(),
        sink@.peers.len() <= i32::MAX,
        call_ensures(WebSink::num_peers, (sink,), num_peers),
    ensures
        num_peers == sink@.peers.len(),
        sink@.num_peers == sink@.peers.len(),
{
}

/// A peer that is added is held with its connection, one that is removed is
/// held no more, and the report says which it was.
pub proof fn law_peers_come_and_go(
    peer_id: String,
    connection: Option<Arc<RTCPeerConnection>>,
    add: bool,
    update: PeerUpdate,
)
    ensures
        forall|sink: &mut WebSink| #[trigger]
            call_ensures(
                WebSink::update_peer_connections,
                (sink, peer_id, connection, add),
                update,
            ) ==> {
                let before = (*sink)@.peers;
                let after = (*final(sink))@.peers;
                match update.change {
                    PeerChange::Added => add && connection is Some && after.contains_key(peer_id@)
                        && after[peer_id@] == connection->0,
                    PeerChange::NotAdded => add && connection is None && after == before,
                    PeerChange::Removed => !add && before.contains_key(peer_id@)
                        && !after.contains_key(peer_id@),
                    PeerChange::NotRemoved => !add && !before.contains_key(peer_id@) && after
                        == before,
                }
            },
{
    assert forall|sink: &mut WebSink| #[trigger]
        call_ensures(
            WebSink::update_peer_connections,
            (sink, peer_id, connection, add),
            update,
        ) && update.change is NotRemoved implies (*final(sink))@.peers == (*sink)@.peers by {
        assert((*sink)@.peers.remove(peer_id@) =~= (*sink)@.peers);
    }
}

/// A change of one peer leaves the other peers, the settings and the run alone.
pub proof fn law_a_change_of_one_peer_is_no_more(
    peer_id: String,
    connection: Option<Arc<RTCPeerConnection>>,
    add: bool,
    update: PeerUpdate,
    other: Seq<char>,
)
    requires
        other != peer_id@,
    ensures
        forall|sink: &mut WebSink| #[trigger]
            call_ensures(
                WebSink::update_peer_connections,
                (sink, peer_id, connection, add),
                update,
            ) ==> {
                let before = (*sink)@;
                let after = (*final(sink))@;
                &&& after.peers.contains_key(other) == before.peers.contains_key(other)
                &&& before.peers.contains_key(other) ==> after.peers[other] == before.peers[other]
                &&& after.settings == before.settings
                &&& same_run(before, after)
                &&& after.missed_unlock == before.missed_unlock
            },
{
}

/// Every change of peers is announced with the new number of peers, where the
/// channel has room; a message that waits already is left alone. The report
/// gives that number and what became of the announcement.
pub proof fn law_changes_of_peers_are_announced(
    peer_id: String,
    connection: Option<Arc<RTCPeerConnection>>,
    add: bool,
    update: PeerUpdate,
)
    ensures
        forall|sink: &mut WebSink| #[trigger]
            call_ensures(
                WebSink::update_peer_connections,
                (sink, peer_id, connection, add),
                update,
            ) ==> {
                let before = (*sink)@;
                let after = (*final(sink))@;
                &&& after.num_peers == update.count
                &&& after.peers.len() <= i32::MAX ==> update.count == after.peers.len()
                &&& match before.pending {
                    None => after.pending is None && update.signal is None,
                    Some(queue) => if queue.len() == 0 {
                        after.pending == Some(seq![update.count]) && update.signal == Some(
                            Sent::Delivered,
                        )
                    } else {
                        after.pending == before.pending && update.signal == Some(Sent::Full)
                    },
                }
            },
{
    assert(forall|queue: Seq<i32>, message: i32|
        queue.len() == 0 ==> (#[trigger] queue.push(message)) =~= seq![message]);
}

/// An answered browser is a peer under the id of its session, with the
/// connection that it was answered on, and is announced like every other.
pub proof fn law_an_answered_browser_is_a_peer(
    response: &SessionResponse,
    connection: Arc<RTCPeerConnection>,
    update: PeerUpdate,
)
    ensures
        forall|sink: &mut WebSink| #[trigger]
            call_ensures(WebSink::session_connected, (sink, response, connection), update) ==> {
                let before = (*sink)@;
                let after = (*final(sink))@;
                &&& after.peers == before.peers.insert(response.session_id@, connection)
                &&& update.change is Added
                &&& update.count == after.num_peers
                &&& after.peers.len() <= i32::MAX ==> after.num_peers == after.peers.len()
                &&& after.settings == before.settings
                &&& same_run(before, after)
                &&& before.pending == Some(Seq::<i32>::empty()) ==> after.pending == Some(
                    seq![update.count],
                )
            },
{
    assert(forall|queue: Seq<i32>, message: i32|
        queue.len() == 0 ==> (#[trigger] queue.push(message)) =~= seq![message]);
}

/// An unlock waits on the channel as minus one if there is room, is remembered
/// if there is none, and is nothing to an element that does not run. Nothing
/// else changes.
pub proof fn law_an_unlock_waits_or_is_remembered(sent: Option<Sent>)
    ensures
        forall|sink: &mut WebSink| #[trigger]
            call_ensures(WebSink::unlock, (sink,), sent) ==> {
                let before = (*sink)@;
                let after = (*final(sink))@;
                &&& match before.pending {
                    None => sent is None && after == before,
                    Some(queue) => if queue.len() == 0 {
                        &&& sent == Some(Sent::Delivered)
                        &&& after.pending == Some(seq![-1i32])
                        &&& after.missed_unlock == before.missed_unlock
                    } else {
                        &&& sent == Some(Sent::Full)
                        &&& after.pending == before.pending
                        &&& after.missed_unlock
                    },
                }
                &&& after.settings == before.settings
                &&& same_run(before, after)
                &&& after.peers == before.peers
                &&& after.num_peers == before.num_peers
            },
{
    assert(forall|queue: Seq<i32>, message: i32|
        queue.len() == 0 ==> (#[trigger] queue.push(message)) =~= seq![message]);
}

/// A buffer that has just come waits in live mode while there is no peer, and
/// is read for all peers otherwise; it is never given up.
pub proof fn law_a_buffer_is_read_for_all_peers(sink: &WebSink, admitted: Admission)
    requires
        sink.wf(),
        sink@.peers.len() <= i32::MAX,
        call_ensures(WebSink::begin_render, (sink,), admitted),
    ensures
        match admitted {
            Admission::Wait => sink@.settings.is_live && sink@.peers.len() == 0,
            Admission::Read { num_peers } => num_peers == sink@.peers.len() && (
            !sink@.settings.is_live || num_peers > 0),
            Admission::GiveUp => false,
        },
{
}

/// A buffer that waits is given up if an unlock was asked for, which is then
/// forgotten, or if the element does not run. It goes on waiting in live mode
/// while there is no peer, and is otherwise read for all peers. The oldest
/// message is used up, and nothing else changes.
pub proof fn law_how_a_wait_goes_on(admitted: Admission)
    ensures
        forall|sink: &mut WebSink| #[trigger]
            call_ensures(WebSink::resume_render, (sink,), admitted) && (*sink).wf()
                && (*sink)@.peers.len() <= i32::MAX ==> {
                let before = (*sink)@;
                let after = (*final(sink))@;
                let unlock = before.missed_unlock || (before.pending matches Some(queue)
                    && queue.len() > 0 && queue[0] == -1);
                let waiting = before.settings.is_live && before.peers.len() == 0;
                &&& match admitted {
                    Admission::GiveUp => unlock || (waiting && before.pending is None),
                    Admission::Wait => !unlock && waiting && before.pending is Some,
                    Admission::Read { num_peers } => !unlock && !waiting && num_peers
                        == before.peers.len(),
                }
                &&& !after.missed_unlock
                &&& before.pending is None ==> after.pending is None
                &&& before.pending matches Some(queue) ==> (after.pending matches Some(left)
                    && if queue.len() == 0 {
                    left == queue
                } else {
                    queue == seq![queue[0]] + left
                })
                &&& after.settings == before.settings
                &&& same_run(before, after)
                &&& after.peers == before.peers
                &&& after.num_peers == before.num_peers
            },
{
    assert(forall|queue: Seq<i32>|
        queue.len() > 0 ==> seq![queue[0]] + (#[trigger] queue.skip(1)) =~= queue);
}

/// While the element runs, a buffer that was read for any number of peers is
/// sent on the element's own track and runtime, with all its bytes and for as
/// long as it says.
pub proof fn law_buffers_are_sent_as_they_are(
    sink: &WebSink,
    num_peers: i32,
    data: &[u8],
    duration: Option<u64>,
    r: Result<Rendering, FlowError>,
)
    requires
        sink.wf(),
        sink@.runtime is Some,
        num_peers > 0,
        call_ensures(WebSink::render, (sink, num_peers, Some(data), duration), r),
    ensures
        r matches Ok(Rendering::Send { sample, track, runtime }) && {
            &&& buffer_bytes(sample.data) == data@
            &&& duration == Some(sample.duration_nanos) || (duration is None
                && sample.duration_nanos == 33_333_333)
            &&& sink@.track == Some(*track)
            &&& sink@.runtime == Some(*runtime)
        },
{
}

/// A buffer is kept back only if it was read for no peer or the element does
/// not run, and fails only if it cannot be read.
pub proof fn law_what_is_not_sent(
    sink: &WebSink,
    num_peers: i32,
    data: Option<&[u8]>,
    duration: Option<u64>,
    r: Result<Rendering, FlowError>,
)
    requires
        sink.wf(),
        call_ensures(WebSink::render, (sink, num_peers, data, duration), r),
    ensures
        r is Err <==> data is None,
        data is Some ==> {
            &&& r->Ok_0 is NoPeers <==> num_peers <= 0
            &&& r->Ok_0 is NoTrack <==> num_peers > 0 && sink@.runtime is None
            &&& r->Ok_0 is Send <==> num_peers > 0 && sink@.runtime is Some
        },
{
}

/// The server that was taken note of is the one that is handed out to be ended,
/// whatever is done before the stop.
pub proof fn law_the_noted_server_is_ended(
    server: JoinHandle<()>,
    calls: Seq<Call>,
    teardown: Teardown,
)
    requires
        forall|i: int| 0 <= i < calls.len() ==> !((#[trigger] calls[i]) is Serve),
    ensures
        forall|serve: &mut WebSink, stop: &mut WebSink|
            (#[trigger] call_ensures(WebSink::serve, (serve, server), ())) && (*stop)@
                == after_calls((*final(serve))@, calls) && (#[trigger] call_ensures(
                WebSink::stop,
                (stop,),
                teardown,
            )) ==> teardown.server_handle == Some(server) && teardown.runtime == (*serve)@.runtime,
{
    assert forall|serve: &mut WebSink, stop: &mut WebSink|
        (#[trigger] call_ensures(WebSink::serve, (serve, server), ())) && (*stop)@ == after_calls(
            (*final(serve))@,
            calls,
        ) && (#[trigger] call_ensures(WebSink::stop, (stop,), teardown)) implies teardown.server_handle
        == Some(server) && teardown.runtime == (*serve)@.runtime by {
        lemma_calls_keep_the_server((*final(serve))@, calls);
    }
}

/// Only taking note of another server changes the server.
proof fn lemma_calls_keep_the_server(sink: WebSinkView, calls: Seq<Call>)
    requires
        forall|i: int| 0 <= i < calls.len() ==> !((#[trigger] calls[i]) is Serve),
    ensures
        after_calls(sink, calls).server_handle == sink.server_handle,
        after_calls(sink, calls).runtime == sink.runtime,
    decreases calls.len(),
{
    if calls.len() > 0 {
        let before = calls.drop_last();
        assert(forall|i: int| 0 <= i < before.len() ==> before[i] == #[trigger] calls[i]);
        lemma_calls_keep_the_server(sink, before);
        assert(!(calls[calls.len() - 1] is Serve));
    }
}

/// A new element is idle, with the port, the server and the mode that it is
/// listed with.
pub proof fn law_a_new_element_is_idle(sink: WebSink)
    requires
        call_ensures(<WebSink as Default>::default, (), sink),
    ensures
        sink@.settings.port == 8091,
        sink@.settings.stun_server == "stun:stun.l.google.com:19302"@,
        !sink@.settings.is_live,
        sink@.runtime is None && sink@.server_handle is None && sink@.pending is None,
        sink@.api is None && sink@.track is None && sink@.config is None,
        sink@.peers == Map::<Seq<char>, Arc<RTCPeerConnection>>::empty(),
        sink@.num_peers == 0,
{
}

} // verus!
