//! Media handed to WebRTC: samples, the video track, and the connection
//! configuration.
use std::sync::Arc;
use vstd::prelude::*;
use webrtc::api::interceptor_registry::register_default_interceptors;
use webrtc::api::media_engine::{MediaEngine, MIME_TYPE_H264};
use webrtc::api::{APIBuilder, API};
use webrtc::interceptor::registry::Registry;
use webrtc::rtp_transceiver::rtp_codec::RTCRtpCodecCapability;
use webrtc::track::track_local::track_local_static_sample::TrackLocalStaticSample;

verus! {

/// A reference counted byte buffer.
#[verifier::external_type_specification]
#[verifier::external_body]
pub struct ExBytes(bytes::Bytes);

/// The WebRTC stack from which peer connections are made.
#[verifier::external_type_specification]
#[verifier::external_body]
pub struct ExApi(webrtc::api::API);

/// A local media track that accepts whole samples.
#[verifier::external_type_specification]
#[verifier::external_body]
pub struct ExTrack(webrtc::track::track_local::track_local_static_sample::TrackLocalStaticSample);

/// The bytes that a buffer holds.
pub uninterp spec fn buffer_bytes(buffer: bytes::Bytes) -> Seq<u8>;

/// What a track was made with: the MIME type of its codec, its id and the id
/// of its stream, in this order.
pub uninterp spec fn track_labels(track: TrackLocalStaticSample) -> Seq<Seq<char>>;

/// `Bytes::copy_from_slice` makes a buffer that holds a copy of `data`.
pub assume_specification[ bytes::Bytes::copy_from_slice ](data: &[u8]) -> (buffer: bytes::Bytes)
    ensures
        buffer_bytes(buffer) == data@,
;

/// `MIME_TYPE_H264`, the name under which WebRTC knows the H.264 codec.
#[verifier::external_body]
fn h264_mime_type() -> (mime_type: String)
    ensures
        mime_type@ == "video/H264"@,
{
    MIME_TYPE_H264.to_owned()
}

/// `TrackLocalStaticSample::new` with a codec capability that sets the MIME
/// type alone: the track keeps the MIME type and both ids.
#[verifier::external_body]
fn new_track(mime_type: String, id: String, stream_id: String) -> (track: Arc<
    TrackLocalStaticSample,
>)
    ensures
        track_labels(*track) == seq![mime_type@, id@, stream_id@],
{
    let codec = RTCRtpCodecCapability { mime_type, ..Default::default() };
    Arc::new(TrackLocalStaticSample::new(codec, id, stream_id))
}

/// `APIBuilder::build` on a media engine with the default codecs and the
/// default interceptors. Registering either can fail in general, but not on a
/// new engine: all default codecs are audio or video, and the only header
/// extension among the default interceptors goes in all directions. Nothing
/// more is claimed of the stack, since its codecs carry the time of their
/// registration.
#[verifier::external_body]
pub(crate) fn create_api() -> (api: Result<API, String>)
    ensures
        api is Ok,
{
    let mut engine = MediaEngine::default();
    engine.register_default_codecs().map_err(|e| e.to_string())?;
    let registry = register_default_interceptors(Registry::new(), &mut engine).map_err(
        |e| e.to_string(),
    )?;
    Ok(APIBuilder::new().with_media_engine(engine).with_interceptor_registry(registry).build())
}

/// The labels of the video track that the element streams.
pub open spec fn video_labels() -> Seq<Seq<char>> {
    seq!["video/H264"@, "video"@, "websink"@]
}

/// Makes the track that carries the H.264 video.
pub fn video_track() -> (track: Arc<TrackLocalStaticSample>)
    ensures
        track_labels(*track) == video_labels(),
{
    new_track(h264_mime_type(), "video".to_owned(), "websink".to_owned())
}

/// `Arc::clone` makes another pointer to the same track.
#[verifier::external_body]
pub(crate) fn share_track(track: &Arc<TrackLocalStaticSample>) -> (shared: Arc<
    TrackLocalStaticSample,
>)
    ensures
        shared == *track,
{
    Arc::clone(track)
}

/// The duration of a frame at thirty frames per second, in nanoseconds.
pub const DEFAULT_FRAME_NANOS: u64 = 33_333_333;

/// One encoded frame on its way to the video track.
pub struct Sample {
    /// The encoded bytes.
    pub data: bytes::Bytes,
    /// How long the frame is shown, in nanoseconds.
    pub duration_nanos: u64,
}

/// The duration of a frame whose buffer may not tell it.
pub open spec fn frame_nanos(duration: Option<u64>) -> u64 {
    match duration {
        Some(nanos) => nanos,
        None => DEFAULT_FRAME_NANOS,
    }
}

impl Sample {
    /// Copies a buffer's bytes into a sample. A buffer without a duration is
    /// taken for a frame at thirty frames per second.
    pub fn new(data: &[u8], duration: Option<u64>) -> (sample: Self)
        ensures
            buffer_bytes(sample.data) == data@,
            sample.duration_nanos == frame_nanos(duration),
            duration matches Some(nanos) ==> sample.duration_nanos == nanos,
            duration is None ==> sample.duration_nanos == 33_333_333,
    {
        let duration_nanos: u64 = match duration {
            Some(nanos) => nanos,
            None => DEFAULT_FRAME_NANOS,
        };
        Sample { data: bytes::Bytes::copy_from_slice(data), duration_nanos }
    }
}

/// A server that helps a peer connection find its candidates.
#[derive(Debug)]
pub struct IceServer {
    /// The addresses under which the server is reached.
    pub urls: Vec<String>,
}

impl View for IceServer {
    type V = Seq<Seq<char>>;

    open spec fn view(&self) -> Seq<Seq<char>> {
        self.urls@.map_values(|url: String| url@)
    }
}

/// The configuration of a peer connection.
#[derive(Debug)]
pub struct RtcConfiguration {
    /// The servers to gather candidates from.
    pub ice_servers: Vec<IceServer>,
}

impl View for RtcConfiguration {
    type V = Seq<Seq<Seq<char>>>;

    /// The addresses of each server.
    open spec fn view(&self) -> Seq<Seq<Seq<char>>> {
        self.ice_servers@.map_values(|server: IceServer| server@)
    }
}

/// The servers of a configuration with the given STUN server; an empty
/// address stands for none.
pub open spec fn stun_servers(stun_server: Seq<char>) -> Seq<Seq<Seq<char>>> {
    if stun_server.len() == 0 {
        Seq::empty()
    } else {
        seq![seq![stun_server]]
    }
}

impl RtcConfiguration {
    /// A configuration with the given STUN server, or with no server at all
    /// if the address is empty.
    pub fn with_stun_server(stun_server: &str) -> (config: Self)
        ensures
            config@ == stun_servers(stun_server@),
            stun_server@.len() == 0 <==> config.ice_servers.len() == 0,
            stun_server@.len() > 0 ==> config.ice_servers.len() == 1
                && config.ice_servers[0].urls.len() == 1 && config.ice_servers[0].urls[0]@
                == stun_server@,
    {
        let mut ice_servers: Vec<IceServer> = Vec::new();
        if !stun_server.is_empty() {
            let mut urls: Vec<String> = Vec::new();
            urls.push(stun_server.to_owned());
            let server = IceServer { urls };
            assert(server@ =~= seq![stun_server@]);
            ice_servers.push(server);
        }
        let config = RtcConfiguration { ice_servers };
        assert(config@ =~= stun_servers(stun_server@));
        config
    }
}

impl Clone for RtcConfiguration {
    fn clone(&self) -> (config: Self)
        ensures
            config@ == self@,
    {
        let mut ice_servers: Vec<IceServer> = Vec::new();
        let mut i: usize = 0;
        while i < self.ice_servers.len()
            invariant
                i <= self.ice_servers.len(),
                ice_servers.len() == i,
                forall|j: int| 0 <= j < i ==> (#[trigger] ice_servers@[j])@ == self.ice_servers@[j]@,
            decreases self.ice_servers.len() - i,
        {
            let server = IceServer { urls: self.ice_servers[i].urls.clone() };
            assert(server@ =~= self.ice_servers@[i as int]@) by {
                assert forall|j: int| 0 <= j < server.urls.len() implies server.urls[j]@
                    == self.ice_servers@[i as int].urls[j]@ by {
                    assert(cloned(self.ice_servers@[i as int].urls[j], server.urls[j]));
                }
            }
            ice_servers.push(server);
            i = i + 1;
        }
        let config = RtcConfiguration { ice_servers };
        assert(config@ =~= self@);
        config
    }
}

/// A sample holds the buffer's own bytes and lasts as long as the buffer says,
/// however long that is. Only a buffer that does not say is taken for a
/// thirtieth of a second.
pub proof fn law_samples_keep_bytes_and_duration(
    data: &[u8],
    duration: Option<u64>,
    sample: Sample,
)
    requires
        call_ensures(Sample::new, (data, duration), sample),
    ensures
        buffer_bytes(sample.data) == data@,
        duration == Some(sample.duration_nanos) || (duration is None && sample.duration_nanos
            == 33_333_333),
{
}

/// The video track is named after its codec, its id and its stream.
pub proof fn law_the_track_is_h264_video(track: Arc<TrackLocalStaticSample>)
    requires
        call_ensures(video_track, (), track),
    ensures
        track_labels(*track).len() == 3,
        track_labels(*track)[0] == "video/H264"@,
        track_labels(*track)[1] == "video"@,
        track_labels(*track)[2] == "websink"@,
{
}

/// Every address but the empty one is that of the only server, unchanged.
pub proof fn law_a_stun_server_is_the_only_server(stun_server: &str, config: RtcConfiguration)
    requires
        call_ensures(RtcConfiguration::with_stun_server, (stun_server,), config),
    ensures
        if stun_server@.len() == 0 {
            config.ice_servers.len() == 0
        } else {
            &&& config.ice_servers.len() == 1
            &&& config.ice_servers[0].urls.len() == 1
            &&& config.ice_servers[0].urls[0]@ == stun_server@
        },
{
}

/// The servers of an address, in numbers: none for the empty address, and for
/// every other one a single server with that one address.
pub proof fn law_servers_of_an_address(stun_server: Seq<char>, other: Seq<char>)
    ensures
        stun_servers(stun_server).len() == (if stun_server.len() == 0 { 0int } else { 1int }),
        stun_server.len() > 0 ==> stun_servers(stun_server)[0].len() == 1 && stun_servers(
            stun_server,
        )[0][0] == stun_server,
        stun_servers(stun_server) == stun_servers(other) <==> stun_server == other,
{
    if stun_servers(stun_server) == stun_servers(other) {
        if stun_server.len() == 0 || other.len() == 0 {
            assert(stun_servers(stun_server).len() == stun_servers(other).len());
            assert(stun_server =~= other);
        } else {
            assert(stun_servers(stun_server)[0][0] == stun_servers(other)[0][0]);
        }
    }
}

/// A copy of a configuration has every server, with every address.
pub proof fn law_a_copied_configuration_is_complete(
    config: &RtcConfiguration,
    copy: RtcConfiguration,
    i: int,
    j: int,
)
    requires
        call_ensures(<RtcConfiguration as Clone>::clone, (config,), copy),
    ensures
        copy.ice_servers.len() == config.ice_servers.len(),
        0 <= i < config.ice_servers.len() ==> copy.ice_servers[i].urls.len()
            == config.ice_servers[i].urls.len(),
        0 <= i < config.ice_servers.len() && 0 <= j < config.ice_servers[i].urls.len()
            ==> copy.ice_servers[i].urls[j]@ == config.ice_servers[i].urls[j]@,
{
    assert(copy@.len() == config@.len());
    if 0 <= i < config.ice_servers.len() {
        assert(copy@[i] == config@[i]);
        assert(copy.ice_servers[i]@ == config.ice_servers[i]@);
        assert(copy.ice_servers[i]@.len() == config.ice_servers[i]@.len());
        if 0 <= j < config.ice_servers[i].urls.len() {
            assert(copy.ice_servers[i]@[j] == config.ice_servers[i]@[j]);
        }
    }
}

} // verus!
