//! The log stream client: when to connect to the log endpoint of the
//! device, how long to wait before each attempt, and what to make of each
//! frame that arrives. Sleeping, connecting and reading are the caller's.

use crate::json::{json_document, parse_json, Json};
use crate::text::{decimal, int_to_string};
use vstd::prelude::*;
use vstd::string::*;

verus! {

/// `url::Url`, carried through without a look inside.
#[verifier::external_type_specification]
#[verifier::external_body]
pub struct ExUrl(url::Url);

/// `url::ParseError`, carried through without a look inside.
#[verifier::external_type_specification]
#[verifier::external_body]
pub struct ExUrlParseError(url::ParseError);

/// Whether the `url` crate accepts a text as an absolute URL.
pub uninterp spec fn url_accepted(text: Seq<char>) -> bool;

/// Calls `url::Url::parse`. Trusted: the call succeeds exactly on the texts
/// that `url_accepted` names.
#[verifier::external_body]
fn parse_url(text: &str) -> (r: Result<url::Url, url::ParseError>)
    ensures
        r is Ok <==> url_accepted(text@),
{
    url::Url::parse(text)
}

/// The seconds that each failed connection attempt adds to the wait before
/// the next.
pub const RETRY_STEP: u64 = 5;

/// The log stream client of one device.
#[derive(Debug, Clone, PartialEq, Eq)]
pub struct Logger {
    /// The address of the device.
    pub host: String,
    /// The port of its log endpoint.
    pub port: i32,
}

/// A message of the device's log. The stream also carries a time stamp,
/// which must be a number and is not kept.
#[derive(Debug, PartialEq, Eq)]
pub struct LogMessage {
    pub level: i64,
    pub data: String,
}

/// How loudly a message is passed on.
#[derive(Debug, Clone, Copy, PartialEq, Eq, Structural)]
pub enum Severity {
    Info,
    Debug,
}

/// Where the client stands.
#[derive(Debug, Clone, Copy, PartialEq, Eq, Structural)]
pub enum StreamState {
    /// No connection; the next attempt waits `retry_delay` seconds.
    Disconnected { retry_delay: u64 },
    /// Connected and reading.
    Connected { retry_delay: u64 },
    /// Given up: the address of the endpoint is no URL.
    Stopped,
}

/// What happened since the last step.
#[derive(Debug, PartialEq, Eq)]
pub enum StreamEvent {
    /// The connection attempt failed.
    ConnectFailed,
    /// The connection stands.
    ConnectSucceeded,
    /// A text frame arrived.
    Frame(String),
    /// Reading failed, or the frame was no text.
    ReadFailed,
}

/// What the caller is to do next.
#[derive(Debug, PartialEq, Eq)]
pub enum StreamAction {
    /// Nothing: the event is not one that the state waits for.
    Wait,
    /// Sleep for `after_seconds`, then connect to `url`.
    Connect { after_seconds: u64, url: String },
    /// Read the next frame.
    Read,
    /// Pass the message on with this severity, then read the next frame.
    Forward { severity: Severity, text: String },
    /// The frame was no log message: note its raw text at diagnostic level,
    /// then read the next frame.
    Undecoded { raw: String },
    /// Stop: the endpoint cannot be addressed.
    GiveUp,
}

/// The URL of the log endpoint.
pub open spec fn log_url(host: Seq<char>, port: int) -> Seq<char> {
    "ws://"@ + host + ":"@ + decimal(port) + "/debug/log"@
}

/// The message that a document holds: a number `ts`, an integer `level`
/// and a string `data`.
pub open spec fn log_message_of(doc: Json) -> Option<LogMessage> {
    match (doc.member("ts"@), doc.member("level"@), doc.member("data"@)) {
        (Some(Json::Int(_)), Some(Json::Int(level)), Some(Json::Str(data))) => Some(
            LogMessage { level, data },
        ),
        (Some(Json::Real), Some(Json::Int(level)), Some(Json::Str(data))) => Some(
            LogMessage { level, data },
        ),
        _ => None,
    }
}

/// The message that a frame holds.
pub open spec fn frame_message(text: Seq<char>) -> Option<LogMessage> {
    match json_document(text) {
        Some(doc) => log_message_of(doc),
        None => None,
    }
}

/// The severity of a level: level -1 is information, every other level is
/// diagnostics.
pub open spec fn severity_of(level: i64) -> Severity {
    if level == -1 {
        Severity::Info
    } else {
        Severity::Debug
    }
}

/// Whether an action is to connect to this URL after this wait.
pub open spec fn connects(action: StreamAction, after: int, target: Seq<char>) -> bool {
    action matches StreamAction::Connect { after_seconds, url } && after_seconds == after && url@
        == target
}

/// What to make of a frame, given the message that it holds: a message is
/// passed on with the severity of its level, a frame without one is noted
/// raw.
pub open spec fn message_action(frame: String, message: Option<LogMessage>) -> StreamAction {
    match message {
        Some(message) => StreamAction::Forward {
            severity: severity_of(message.level),
            text: message.data,
        },
        None => StreamAction::Undecoded { raw: frame },
    }
}

/// What a frame leads to.
pub open spec fn frame_action(frame: String, action: StreamAction) -> bool {
    action == message_action(frame, frame_message(frame@))
}

/// The first step of a client: where the endpoint can be addressed, the
/// first attempt to connect is due at once; else the client gives up.
pub open spec fn first_step(
    url: Seq<char>,
    addressable: bool,
    next: StreamState,
    action: StreamAction,
) -> bool {
    if addressable {
        next == (StreamState::Disconnected { retry_delay: 0 }) && connects(action, 0, url)
    } else {
        next == StreamState::Stopped && action == StreamAction::GiveUp
    }
}

/// Whether a step may be taken: the wait must have room to grow.
pub open spec fn can_step(state: StreamState, event: StreamEvent) -> bool {
    match (state, event) {
        (StreamState::Disconnected { retry_delay }, StreamEvent::ConnectFailed) => retry_delay
            + RETRY_STEP <= u64::MAX,
        _ => true,
    }
}

/// The transition relation of the client.
pub open spec fn stream_step(
    url: Seq<char>,
    state: StreamState,
    event: StreamEvent,
    next: StreamState,
    action: StreamAction,
) -> bool {
    match (state, event) {
        (StreamState::Disconnected { retry_delay }, StreamEvent::ConnectFailed) => {
            &&& next == (StreamState::Disconnected { retry_delay: (retry_delay + RETRY_STEP) as u64 })
            &&& connects(action, retry_delay + RETRY_STEP, url)
        },
        (StreamState::Disconnected { retry_delay }, StreamEvent::ConnectSucceeded) => {
            &&& next == (StreamState::Connected { retry_delay })
            &&& action == StreamAction::Read
        },
        (StreamState::Connected { retry_delay }, StreamEvent::Frame(frame)) => {
            &&& next == state
            &&& frame_action(frame, action)
        },
        (StreamState::Connected { retry_delay }, StreamEvent::ReadFailed) => {
            &&& next == (StreamState::Disconnected { retry_delay })
            &&& connects(action, retry_delay as int, url)
        },
        _ => next == state && action == StreamAction::Wait,
    }
}

/// The wait that a state has reached; a client that has given up waits no
/// more.
pub open spec fn delay_of(state: StreamState) -> int {
    match state {
        StreamState::Disconnected { retry_delay } => retry_delay as int,
        StreamState::Connected { retry_delay } => retry_delay as int,
        StreamState::Stopped => 0,
    }
}

/// No step makes the wait shorter: neither a connection that stands nor a
/// failed read sets it back, and only a failed attempt changes it.
pub proof fn lemma_delay_never_shrinks(
    url: Seq<char>,
    state: StreamState,
    event: StreamEvent,
    next: StreamState,
    action: StreamAction,
)
    requires
        can_step(state, event),
        stream_step(url, state, event, next, action),
    ensures
        delay_of(next) >= delay_of(state),
        delay_of(next) != delay_of(state) ==> state is Disconnected && event is ConnectFailed,
{
}

/// The wait before the attempt that follows `failures` failed attempts in a
/// row, counted from the start of the client.
pub open spec fn delay_after(failures: nat) -> int {
    failures * RETRY_STEP
}

/// Each failed attempt adds `RETRY_STEP` seconds: where the wait stood at
/// `delay_after(n)`, one more failure asks for the next connection after
/// `delay_after(n + 1)` seconds, and a connection that stands leaves the
/// wait as it is.
pub proof fn lemma_retry_delay_grows(
    url: Seq<char>,
    failures: nat,
    event: StreamEvent,
    next: StreamState,
    action: StreamAction,
)
    requires
        delay_after(failures + 1) <= u64::MAX,
        event is ConnectFailed || event is ConnectSucceeded,
        stream_step(
            url,
            StreamState::Disconnected { retry_delay: delay_after(failures) as u64 },
            event,
            next,
            action,
        ),
    ensures
        delay_after(0) == 0,
        event is ConnectFailed ==> next == (StreamState::Disconnected {
            retry_delay: delay_after(failures + 1) as u64,
        }) && connects(action, delay_after(failures + 1), url),
        event is ConnectSucceeded ==> next == (StreamState::Connected {
            retry_delay: delay_after(failures) as u64,
        }) && action == StreamAction::Read,
{
}

/// Reads a log message from a document.
pub fn read_log_message(doc: &Json) -> (r: Option<LogMessage>)
    ensures
        r == log_message_of(*doc),
{
    match (doc.get("ts"), doc.get("level"), doc.get("data")) {
        (Some(Json::Int(_)), Some(Json::Int(level)), Some(Json::Str(data))) => Some(
            LogMessage { level: *level, data: data.clone() },
        ),
        (Some(Json::Real), Some(Json::Int(level)), Some(Json::Str(data))) => Some(
            LogMessage { level: *level, data: data.clone() },
        ),
        _ => None,
    }
}

/// Reads a log message from the text of a frame.
pub fn decode_frame(text: &str) -> (r: Option<LogMessage>)
    ensures
        r == frame_message(text@),
{
    match parse_json(text) {
        Some(doc) => read_log_message(&doc),
        None => None,
    }
}

/// The severity with which a message of this level is passed on.
pub fn classify(level: i64) -> (r: Severity)
    ensures
        r == severity_of(level),
{
    if level == -1 {
        Severity::Info
    } else {
        Severity::Debug
    }
}

/// Decides what to make of a frame, given the message that was read from
/// it.
pub fn forward(frame: String, message: Option<LogMessage>) -> (r: StreamAction)
    ensures
        r == message_action(frame, message),
{
    match message {
        Some(message) => StreamAction::Forward {
            severity: classify(message.level),
            text: message.data,
        },
        None => StreamAction::Undecoded { raw: frame },
    }
}

/// Takes the first step of a client for the endpoint at `url`, given
/// whether that URL can be addressed.
pub fn begin(url: String, addressable: bool) -> (r: (StreamState, StreamAction))
    ensures
        first_step(url@, addressable, r.0, r.1),
{
    if addressable {
        (
            StreamState::Disconnected { retry_delay: 0 },
            StreamAction::Connect { after_seconds: 0, url },
        )
    } else {
        (StreamState::Stopped, StreamAction::GiveUp)
    }
}

impl Logger {
    /// The client for the log endpoint at `host` and `port`.
    pub fn new(host: String, port: i32) -> (r: Logger)
        ensures
            r.host == host,
            r.port == port,
    {
        Logger { host, port }
    }

    /// The URL of the log endpoint.
    pub fn url(&self) -> (r: String)
        ensures
            r@ == log_url(self.host@, self.port as int),
    {
        let mut url = String::from_str("ws://");
        url.append(self.host.as_str());
        url.append(":");
        url.append(int_to_string(self.port as i64).as_str());
        url.append("/debug/log");
        url
    }

    /// Starts the client: where the `url` crate takes the address of the
    /// endpoint for a URL, the first attempt to connect is due at once;
    /// else the client gives up.
    pub fn start(&self) -> (r: (StreamState, StreamAction))
        ensures
            first_step(
                log_url(self.host@, self.port as int),
                url_accepted(log_url(self.host@, self.port as int)),
                r.0,
                r.1,
            ),
    {
        let url = self.url();
        let addressable = parse_url(url.as_str()).is_ok();
        begin(url, addressable)
    }

    /// One step of the client: each failed attempt makes the next wait
    /// `RETRY_STEP` seconds longer, a connection that stands is read frame
    /// by frame, and a failed read leads back to connecting, after the wait
    /// that was reached.
    pub fn step(&self, state: StreamState, event: StreamEvent) -> (r: (StreamState, StreamAction))
        requires
            can_step(state, event),
        ensures
            stream_step(log_url(self.host@, self.port as int), state, event, r.0, r.1),
    {
        match (state, event) {
            (StreamState::Disconnected { retry_delay }, StreamEvent::ConnectFailed) => {
                let delay: u64 = retry_delay + RETRY_STEP;
                (
                    StreamState::Disconnected { retry_delay: delay },
                    StreamAction::Connect { after_seconds: delay, url: self.url() },
                )
            },
            (StreamState::Disconnected { retry_delay }, StreamEvent::ConnectSucceeded) => (
                StreamState::Connected { retry_delay },
                StreamAction::Read,
            ),
            (StreamState::Connected { retry_delay }, StreamEvent::Frame(frame)) => {
                let message = decode_frame(frame.as_str());
                (state, forward(frame, message))
            },
            (StreamState::Connected { retry_delay }, StreamEvent::ReadFailed) => (
                StreamState::Disconnected { retry_delay },
                StreamAction::Connect { after_seconds: retry_delay, url: self.url() },
            ),
            (state, _) => (state, StreamAction::Wait),
        }
    }
}

} // verus!
