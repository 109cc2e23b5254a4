//! The HTTP server: where it listens, and what it answers.
use crate::session::is_session_id;
use crate::session::{new_session_id, SessionRequest, SessionResponse};
use crate::text::decimal_text;
use crate::text::{decimal, lemma_decimal, numeral_value};
use serde_json::Value;
use tokio::sync::mpsc::Sender;
use vstd::prelude::*;
use vstd::string::*;

verus! {

/// How many ports after the first are tried.
pub const PORT_ATTEMPTS: u16 = 100;

/// What became of an attempt to listen on a port.
#[derive(Debug, Clone, Copy, PartialEq, Eq, Structural)]
pub enum BindOutcome {
    /// The port cannot be listened on.
    Refused,
    /// The port is listened on; this is its number, if it can be told.
    Bound(Option<u16>),
}

/// A search for a port to listen on.
#[derive(Debug, Clone, Copy, PartialEq, Eq, Structural)]
pub enum PortSearch {
    /// Try this port; `last` is the last one to be tried.
    Try { port: u16, last: u16 },
    /// The search is over, with the port that was found.
    Done(Option<u16>),
}

/// The last port that is tried. Zero, which stands for any port, is tried
/// alone.
pub open spec fn last_port(start_port: u16) -> u16 {
    if start_port == 0 {
        0
    } else if start_port + 100 > 65535 {
        65535
    } else {
        (start_port + 100) as u16
    }
}

/// Begins a search for a port: the given one and up to a hundred more, or any
/// port if it is zero.
pub fn find_available_port(start_port: u16) -> (search: PortSearch)
    ensures
        search == (PortSearch::Try { port: start_port, last: last_port(start_port) }),
{
    if start_port == 0 {
        PortSearch::Try { port: 0, last: 0 }
    } else {
        PortSearch::Try { port: start_port, last: start_port.saturating_add(PORT_ATTEMPTS) }
    }
}

/// How a search goes on after an attempt.
pub open spec fn after_attempt(search: PortSearch, outcome: BindOutcome) -> PortSearch {
    match (search, outcome) {
        (PortSearch::Done(found), _) => PortSearch::Done(found),
        (_, BindOutcome::Bound(port)) => PortSearch::Done(port),
        (PortSearch::Try { port, last }, BindOutcome::Refused) => if port < last {
            PortSearch::Try { port: (port + 1) as u16, last }
        } else {
            PortSearch::Done(None)
        },
    }
}

impl PortSearch {
    /// Goes on with a search after an attempt.
    pub fn advance(self, outcome: BindOutcome) -> (search: PortSearch)
        ensures
            search == after_attempt(self, outcome),
    {
        match self {
            PortSearch::Done(found) => PortSearch::Done(found),
            PortSearch::Try { port, last } => match outcome {
                BindOutcome::Bound(port) => PortSearch::Done(port),
                BindOutcome::Refused => if port < last {
                    PortSearch::Try { port: port + 1, last }
                } else {
                    PortSearch::Done(None)
                },
            },
        }
    }
}

/// The address on which all interfaces listen at a port.
pub fn bind_address(port: u16) -> (address: String)
    ensures
        address@ == "0.0.0.0:"@ + decimal(port as nat),
{
    let mut address = "0.0.0.0:".to_owned();
    address.append(decimal_text(port).as_str());
    address
}

/// The address of a server on a host, as a browser takes it.
pub open spec fn url(host: Seq<char>, port: u16) -> Seq<char> {
    "http://"@ + host + ":"@ + decimal(port as nat)
}

/// Writes the address of a server on a host.
pub fn server_url(host: &str, port: u16) -> (address: String)
    ensures
        address@ == url(host@, port),
{
    let mut address = "http://".to_owned();
    address.append(host);
    address.append(":");
    address.append(decimal_text(port).as_str());
    address
}

/// The line, in green, that announces the server on a terminal.
pub fn banner(port: u16) -> (line: String)
    ensures
        line@ == "\x1b[32m"@ + "HTTP server starting on "@ + url("localhost"@, port) + "\x1b[0m"@,
{
    let mut line = "\x1b[32m".to_owned();
    line.append("HTTP server starting on ");
    line.append(server_url("localhost", port).as_str());
    line.append("\x1b[0m");
    line
}

/// The addresses under which the server is announced: that of the host by its
/// name, if it is known, and that of the host by its address, or else the
/// local one.
pub fn announced_urls(hostname: Option<String>, local_ip: Option<String>, port: u16) -> (urls: Vec<
    String,
>)
    ensures
        urls.len() == (if hostname is Some { 2int } else { 1int }),
        hostname matches Some(hostname) ==> urls[0]@ == url(hostname@, port),
        urls[urls.len() - 1]@ == url(
            match local_ip {
                Some(ip) => ip@,
                None => "localhost"@,
            },
            port,
        ),
{
    let mut urls: Vec<String> = Vec::new();
    if let Some(hostname) = hostname {
        urls.push(server_url(hostname.as_str(), port));
    }
    let url = match local_ip {
        Some(ip) => server_url(ip.as_str(), port),
        None => server_url("localhost", port),
    };
    urls.push(url);
    urls
}

/// Why a server could not be started.
#[derive(Debug, Clone, Copy, PartialEq, Eq, Structural)]
pub enum StartError {
    NoAvailablePort,
}

impl StartError {
    /// The error in words.
    pub fn message(&self) -> (message: String)
        ensures
            message@ == "No available ports found"@,
    {
        "No available ports found".to_owned()
    }
}

/// The port on which a server starts, once the search for one is over.
pub fn start_http_server(found: Option<u16>) -> (port: Result<u16, StartError>)
    ensures
        port == (match found {
            Some(port) => Ok::<u16, StartError>(port),
            None => Err(StartError::NoAvailablePort),
        }),
{
    match found {
        Some(port) => Ok(port),
        None => Err(StartError::NoAvailablePort),
    }
}

/// What the HTTP server tells the element.
#[derive(Debug)]
pub enum ServerEvent {
    /// A browser asks for a session.
    NewSession {
        peer_id: String,
        offer: Value,
        /// Where the element's answer goes.
        responder: Sender<Result<SessionResponse, String>>,
    },
}

/// What the HTTP server shares between its requests.
pub struct ServerState {
    /// Where the element hears of the server's events.
    pub event_sender: Sender<ServerEvent>,
}

/// `Sender::clone` makes another handle on the same channel.
#[verifier::external_body]
fn share_sender(sender: &Sender<ServerEvent>) -> (shared: Sender<ServerEvent>)
    ensures
        shared == *sender,
{
    sender.clone()
}

impl Clone for ServerState {
    fn clone(&self) -> (state: Self)
        ensures
            state == *self,
    {
        ServerState { event_sender: share_sender(&self.event_sender) }
    }
}

/// Turns a request for a session into an event, under a new peer id.
pub fn new_session(
    request: SessionRequest,
    responder: Sender<Result<SessionResponse, String>>,
) -> (event: ServerEvent)
    ensures
        event matches ServerEvent::NewSession { peer_id, offer, responder: to } && is_session_id(
            peer_id@,
        ) && offer == request.offer && to == responder,
{
    ServerEvent::NewSession { peer_id: new_session_id(), offer: request.offer, responder }
}

/// What became of an event for a session.
#[derive(Debug)]
pub enum SessionOutcome {
    /// The element could not be told.
    NotSent,
    /// The element answered, or its answer will never come.
    Received(Option<Result<SessionResponse, String>>),
}

/// The body of an answer to a request for a session.
#[derive(Debug)]
pub enum ReplyBody {
    Session(SessionResponse),
    /// An object whose member `error` is this text.
    Error(String),
}

/// The answer to a request for a session.
#[derive(Debug)]
pub struct SessionReply {
    /// The HTTP status code.
    pub status: u16,
    pub body: ReplyBody,
}

/// An answer that reports a failure of the server.
pub open spec fn reports(reply: SessionReply, error: Seq<char>) -> bool {
    reply.status == 500 && (reply.body matches ReplyBody::Error(text) && text@ == error)
}

fn report(error: String) -> (reply: SessionReply)
    ensures
        reports(reply, error@),
{
    SessionReply { status: 500, body: ReplyBody::Error(error) }
}

/// Answers a request for a session.
pub fn handle_session(outcome: SessionOutcome) -> (reply: SessionReply)
    ensures
        match outcome {
            SessionOutcome::NotSent => reports(reply, "Server error"@),
            SessionOutcome::Received(Some(Ok(response))) => reply == (SessionReply {
                status: 200,
                body: ReplyBody::Session(response),
            }),
            SessionOutcome::Received(Some(Err(error))) => reports(reply, error@),
            SessionOutcome::Received(None) => reports(reply, "No response from server"@),
        },
        reply.status == 200 <==> reply.body is Session,
{
    match outcome {
        SessionOutcome::NotSent => report("Server error".to_owned()),
        SessionOutcome::Received(Some(Ok(response))) => SessionReply {
            status: 200,
            body: ReplyBody::Session(response),
        },
        SessionOutcome::Received(Some(Err(error))) => report(error),
        SessionOutcome::Received(None) => report("No response from server".to_owned()),
    }
}

/// How many ports a search may still try.
pub open spec fn attempts_left(search: PortSearch) -> nat {
    match search {
        PortSearch::Done(_) => 0,
        PortSearch::Try { port, last } => if port <= last {
            (last - port + 1) as nat
        } else {
            1
        },
    }
}

/// Where a search ends if trying a port has the given outcome.
pub open spec fn search_result(
    search: PortSearch,
    outcomes: spec_fn(u16) -> BindOutcome,
) -> Option<u16>
    decreases attempts_left(search),
{
    match search {
        PortSearch::Done(found) => found,
        PortSearch::Try { port, last } => search_result(
            after_attempt(search, outcomes(port)),
            outcomes,
        ),
    }
}

/// Every attempt brings a search closer to its end, and a search tries no
/// more than a hundred and one ports.
pub proof fn law_search_ends(start_port: u16, search: PortSearch, outcome: BindOutcome)
    ensures
        attempts_left(PortSearch::Try { port: start_port, last: last_port(start_port) }) <= 101,
        search is Try ==> attempts_left(after_attempt(search, outcome)) < attempts_left(search),
{
}

/// A search tries ports from the first one on, in order, and never leaves the
/// range it began with.
pub proof fn law_search_stays_in_range(search: PortSearch, outcome: BindOutcome)
    requires
        search matches PortSearch::Try { port, last } && port <= last,
    ensures
        after_attempt(search, outcome) matches PortSearch::Try { port: next, last } ==> {
            &&& last == search->last
            &&& next == search->port + 1
            &&& next <= last
        },
{
}

/// A search finds the first port of its range that can be listened on.
pub proof fn law_first_free_port_is_found(
    port: u16,
    last: u16,
    outcomes: spec_fn(u16) -> BindOutcome,
    free: u16,
)
    requires
        port <= free <= last,
        outcomes(free) is Bound,
        forall|p: u16| port <= p < free ==> (#[trigger] outcomes(p)) is Refused,
    ensures
        search_result(PortSearch::Try { port, last }, outcomes) == outcomes(free)->Bound_0,
    decreases free - port,
{
    if port < free {
        assert(outcomes(port) is Refused);
        law_first_free_port_is_found((port + 1) as u16, last, outcomes, free);
    } else {
        reveal_with_fuel(search_result, 2);
    }
}

/// A search finds nothing if no port of its range can be listened on.
pub proof fn law_no_free_port_is_found(
    port: u16,
    last: u16,
    outcomes: spec_fn(u16) -> BindOutcome,
)
    requires
        port <= last,
        forall|p: u16| port <= p <= last ==> (#[trigger] outcomes(p)) is Refused,
    ensures
        search_result(PortSearch::Try { port, last }, outcomes) is None,
    decreases last - port,
{
    assert(outcomes(port) is Refused);
    if port < last {
        law_no_free_port_is_found((port + 1) as u16, last, outcomes);
    } else {
        reveal_with_fuel(search_result, 2);
    }
}

/// A search begins at the port asked for and ends a hundred ports later, or at
/// the last port there is. Port zero is tried alone.
pub proof fn law_where_a_search_begins_and_ends(start_port: u16, search: PortSearch)
    requires
        call_ensures(find_available_port, (start_port,), search),
    ensures
        search matches PortSearch::Try { port, last } && {
            &&& port == start_port
            &&& start_port == 0 ==> last == 0
            &&& 0 < start_port <= 65435 ==> last == start_port + 100
            &&& start_port > 65435 ==> last == 65535
        },
{
}

/// A port that is listened on ends the search with its number, a refused one
/// leads to the next or, at the end of the range, to nothing, and a search that
/// is over stays over.
pub proof fn law_how_a_search_goes_on(search: PortSearch, outcome: BindOutcome, next: PortSearch)
    requires
        call_ensures(PortSearch::advance, (search, outcome), next),
    ensures
        match (search, outcome) {
            (PortSearch::Done(_), _) => next == search,
            (PortSearch::Try { .. }, BindOutcome::Bound(number)) => next == PortSearch::Done(
                number,
            ),
            (PortSearch::Try { port, last }, BindOutcome::Refused) => match next {
                PortSearch::Try { port: tried, last: end } => port < last && tried == port + 1
                    && end == last,
                PortSearch::Done(found) => port >= last && found is None,
            },
        },
{
}

/// The first free port from the one asked for on is found if it is at most a
/// hundred ports away, whatever may be free beyond it.
pub proof fn law_a_port_within_reach_is_found(
    start_port: u16,
    search: PortSearch,
    outcomes: spec_fn(u16) -> BindOutcome,
    free: u16,
)
    requires
        call_ensures(find_available_port, (start_port,), search),
        start_port > 0,
        start_port <= free <= start_port + 100,
        outcomes(free) is Bound,
        forall|p: u16| start_port <= p < free ==> (#[trigger] outcomes(p)) is Refused,
    ensures
        search_result(search, outcomes) == outcomes(free)->Bound_0,
{
    law_first_free_port_is_found(start_port, last_port(start_port), outcomes, free);
}

/// Nothing is found if the port asked for and the hundred after it are all
/// refused, whatever may be free beyond them.
pub proof fn law_no_port_out_of_reach_is_found(
    start_port: u16,
    search: PortSearch,
    outcomes: spec_fn(u16) -> BindOutcome,
)
    requires
        call_ensures(find_available_port, (start_port,), search),
        start_port > 0,
        forall|p: u16|
            start_port <= p <= start_port + 100 ==> (#[trigger] outcomes(p)) is Refused,
    ensures
        search_result(search, outcomes) is None,
{
    law_no_free_port_is_found(start_port, last_port(start_port), outcomes);
}

/// Asked for any port, the search takes what the system gives and tries no
/// other.
pub proof fn law_any_port_is_left_to_the_system(
    search: PortSearch,
    outcomes: spec_fn(u16) -> BindOutcome,
)
    requires
        call_ensures(find_available_port, (0u16,), search),
    ensures
        search_result(search, outcomes) == (match outcomes(0) {
            BindOutcome::Bound(number) => number,
            BindOutcome::Refused => None,
        }),
{
    reveal_with_fuel(search_result, 2);
}

/// An address names all interfaces and the port, whichever it is.
pub proof fn law_addresses_name_their_port(port: u16, address: String)
    requires
        call_ensures(bind_address, (port,), address),
    ensures
        address@.len() > 8,
        address@.subrange(0, 8) == "0.0.0.0:"@,
        numeral_value(address@.skip(8)) == port,
{
    reveal_strlit("0.0.0.0:");
    lemma_decimal(port as nat);
    assert("0.0.0.0:"@.len() == 8);
    assert(address@.subrange(0, 8) =~= "0.0.0.0:"@);
    assert(address@.skip(8) =~= decimal(port as nat));
}

/// An address of the web under which a host and a port are found again.
pub open spec fn leads_to(address: Seq<char>, host: Seq<char>, port: u16) -> bool {
    let end: int = 7int + host.len();
    &&& address.len() > end + 1
    &&& address.subrange(0, 7) == "http://"@
    &&& address.subrange(7, end) == host
    &&& address[end] == ':'
    &&& numeral_value(address.skip(end + 1)) == port
}

proof fn lemma_url(host: Seq<char>, port: u16)
    ensures
        leads_to(url(host, port), host, port),
{
    reveal_strlit("http://");
    reveal_strlit(":");
    lemma_decimal(port as nat);
    let address = url(host, port);
    let end: int = 7int + host.len();
    assert("http://"@.len() == 7);
    assert(":"@.len() == 1);
    assert(address.subrange(0, 7) =~= "http://"@);
    assert(address.subrange(7, end) =~= host);
    assert(address.skip(end + 1) =~= decimal(port as nat));
}

/// A browser that is given a server's address finds the host and the port in
/// it, whatever they are.
pub proof fn law_urls_lead_to_their_server(host: &str, port: u16, address: String)
    requires
        call_ensures(server_url, (host, port), address),
    ensures
        leads_to(address@, host@, port),
{
    lemma_url(host@, port);
}

/// The line on the terminal shows the server's own address, in green.
pub proof fn law_the_banner_shows_the_address(port: u16, line: String)
    requires
        call_ensures(banner, (port,), line),
    ensures
        line@.len() > 33,
        line@.subrange(0, 5) == "\x1b[32m"@,
        line@.subrange(5, 29) == "HTTP server starting on "@,
        leads_to(line@.subrange(29, line@.len() - 4), "localhost"@, port),
        line@.skip(line@.len() - 4) == "\x1b[0m"@,
{
    reveal_strlit("\x1b[32m");
    reveal_strlit("HTTP server starting on ");
    reveal_strlit("\x1b[0m");
    lemma_url("localhost"@, port);
    assert("\x1b[32m"@.len() == 5);
    assert("HTTP server starting on "@.len() == 24);
    assert("\x1b[0m"@.len() == 4);
    assert(line@.subrange(0, 5) =~= "\x1b[32m"@);
    assert(line@.subrange(5, 29) =~= "HTTP server starting on "@);
    assert(line@.subrange(29, line@.len() - 4) =~= url("localhost"@, port));
    assert(line@.skip(line@.len() - 4) =~= "\x1b[0m"@);
}

/// Every announced address leads to the server's port: the first by the name
/// of the host, if it has one, and the last by its address or, for want of one,
/// from the host itself.
pub proof fn law_announced_urls_lead_to_the_server(
    hostname: Option<String>,
    local_ip: Option<String>,
    port: u16,
    urls: Vec<String>,
)
    requires
        call_ensures(announced_urls, (hostname, local_ip, port), urls),
    ensures
        hostname is Some <==> urls.len() == 2,
        hostname is None <==> urls.len() == 1,
        hostname matches Some(name) ==> leads_to(urls[0]@, name@, port),
        local_ip matches Some(ip) ==> leads_to(urls[urls.len() - 1]@, ip@, port),
        local_ip is None ==> leads_to(urls[urls.len() - 1]@, "localhost"@, port),
{
    if let Some(name) = hostname {
        lemma_url(name@, port);
    }
    if let Some(ip) = local_ip {
        lemma_url(ip@, port);
    }
    lemma_url("localhost"@, port);
}

/// A server starts on the port that was found, whichever it is, and fails only
/// if none was.
pub proof fn law_a_server_starts_where_it_can(
    found: Option<u16>,
    started: Result<u16, StartError>,
)
    requires
        call_ensures(start_http_server, (found,), started),
    ensures
        started is Ok <==> found is Some,
        started matches Ok(port) ==> found == Some(port),
{
}

/// The element hears of every request: of the whole offer, under a new id, and
/// of where its answer goes.
pub proof fn law_a_request_reaches_the_element(
    request: SessionRequest,
    responder: Sender<Result<SessionResponse, String>>,
    event: ServerEvent,
)
    requires
        call_ensures(new_session, (request, responder), event),
    ensures
        event matches ServerEvent::NewSession { peer_id, offer, responder: to } && {
            &&& offer == request.offer
            &&& to == responder
            &&& peer_id@.len() == 36
            &&& peer_id@[14] == '4'
        },
{
}

/// A session that the element made reaches the browser as it is, with success;
/// an error of the element reaches it in full; and every failure is one of the
/// server.
pub proof fn law_the_answer_reaches_the_browser(outcome: SessionOutcome, reply: SessionReply)
    requires
        call_ensures(handle_session, (outcome,), reply),
    ensures
        reply.status == 200 || reply.status == 500,
        reply.status == 200 <==> (outcome matches SessionOutcome::Received(Some(Ok(_)))),
        outcome matches SessionOutcome::Received(Some(Ok(response))) ==> reply.body
            == ReplyBody::Session(response),
        outcome matches SessionOutcome::Received(Some(Err(error))) ==> (reply.body matches
            ReplyBody::Error(text) && text@ == error@),
        outcome is NotSent ==> (reply.body matches ReplyBody::Error(text) && text@
            == "Server error"@),
        outcome == SessionOutcome::Received(None) ==> (reply.body matches ReplyBody::Error(text)
            && text@ == "No response from server"@),
{
}

} // verus!
