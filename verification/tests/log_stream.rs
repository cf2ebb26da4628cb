use shelly_remote_helper::json::parse_json;
use shelly_remote_helper::logger::{
    begin, classify, decode_frame, forward, read_log_message, LogMessage, Logger, Severity,
    StreamAction, StreamEvent, StreamState, RETRY_STEP,
};

fn client() -> Logger {
    Logger::new(String::from("192.168.1.5"), 80)
}

fn connect(after_seconds: u64) -> StreamAction {
    StreamAction::Connect { after_seconds, url: String::from("ws://192.168.1.5:80/debug/log") }
}

fn frame(text: &str) -> StreamEvent {
    StreamEvent::Frame(String::from(text))
}

#[test]
fn url_names_the_log_endpoint() {
    assert_eq!(client().url(), "ws://192.168.1.5:80/debug/log");
    assert_eq!(Logger::new(String::from("shelly.local"), 8080).url(), "ws://shelly.local:8080/debug/log");
}

#[test]
fn start_connects_at_once() {
    let (state, action) = client().start();
    assert_eq!(state, StreamState::Disconnected { retry_delay: 0 });
    assert_eq!(action, connect(0));
}

#[test]
fn start_gives_up_without_an_addressable_endpoint() {
    let (state, action) = Logger::new(String::from("bad host"), 80).start();
    assert_eq!(state, StreamState::Stopped);
    assert_eq!(action, StreamAction::GiveUp);
    let (state, action) = Logger::new(String::from("192.168.1.5"), -1).start();
    assert_eq!(state, StreamState::Stopped);
    assert_eq!(action, StreamAction::GiveUp);
}

#[test]
fn retry_delay_grows_by_five_seconds_per_failure() {
    let logger = client();
    assert_eq!(RETRY_STEP, 5);
    let (state, action) = logger.start();
    assert_eq!(action, connect(0));
    let (state, action) = logger.step(state, StreamEvent::ConnectFailed);
    assert_eq!(action, connect(5));
    let (state, action) = logger.step(state, StreamEvent::ConnectFailed);
    assert_eq!(action, connect(10));
    let (state, action) = logger.step(state, StreamEvent::ConnectFailed);
    assert_eq!(state, StreamState::Disconnected { retry_delay: 15 });
    assert_eq!(action, connect(15));
    let (state, action) = logger.step(state, StreamEvent::ConnectSucceeded);
    assert_eq!(state, StreamState::Connected { retry_delay: 15 });
    assert_eq!(action, StreamAction::Read);
}

#[test]
fn read_failure_leads_back_to_connecting_with_the_delay_reached() {
    let logger = client();
    let (state, action) = logger.step(StreamState::Connected { retry_delay: 10 }, StreamEvent::ReadFailed);
    assert_eq!(state, StreamState::Disconnected { retry_delay: 10 });
    assert_eq!(action, connect(10));
    let (state, action) = logger.step(state, StreamEvent::ConnectFailed);
    assert_eq!(state, StreamState::Disconnected { retry_delay: 15 });
    assert_eq!(action, connect(15));
}

#[test]
fn frames_are_passed_on_by_level() {
    let logger = client();
    let connected = StreamState::Connected { retry_delay: 0 };
    let (state, action) = logger.step(connected, frame("{\"ts\":1700000000.25,\"level\":-1,\"data\":\"hello\"}"));
    assert_eq!(state, connected);
    assert_eq!(action, StreamAction::Forward { severity: Severity::Info, text: String::from("hello") });
    let (_, action) = logger.step(connected, frame("{\"ts\":12,\"level\":2,\"data\":\"detail\"}"));
    assert_eq!(action, StreamAction::Forward { severity: Severity::Debug, text: String::from("detail") });
    let (_, action) = logger.step(connected, frame("{\"ts\":12,\"level\":0,\"data\":\"\"}"));
    assert_eq!(action, StreamAction::Forward { severity: Severity::Debug, text: String::new() });
}

#[test]
fn undecodable_frame_is_noted_and_reading_goes_on() {
    let logger = client();
    let connected = StreamState::Connected { retry_delay: 5 };
    for raw in ["", "plain text", "{\"level\":-1,\"data\":\"no ts\"}", "{\"ts\":1,\"level\":1.5,\"data\":\"x\"}", "{\"ts\":1,\"level\":1}", "{\"ts\":\"1\",\"level\":1,\"data\":\"x\"}"] {
        let (state, action) = logger.step(connected, frame(raw));
        assert_eq!(state, connected);
        assert_eq!(action, StreamAction::Undecoded { raw: String::from(raw) });
    }
}

#[test]
fn stream_event_that_the_state_does_not_wait_for_changes_nothing() {
    let logger = client();
    let idle = StreamState::Disconnected { retry_delay: 5 };
    assert_eq!(logger.step(idle, frame("{}")), (idle, StreamAction::Wait));
    assert_eq!(logger.step(idle, StreamEvent::ReadFailed), (idle, StreamAction::Wait));
    let connected = StreamState::Connected { retry_delay: 5 };
    assert_eq!(logger.step(connected, StreamEvent::ConnectFailed), (connected, StreamAction::Wait));
    assert_eq!(logger.step(StreamState::Stopped, StreamEvent::ConnectSucceeded), (StreamState::Stopped, StreamAction::Wait));
}

#[test]
fn classify_tells_information_from_diagnostics() {
    assert_eq!(classify(-1), Severity::Info);
    assert_eq!(classify(0), Severity::Debug);
    assert_eq!(classify(1), Severity::Debug);
    assert_eq!(classify(-2), Severity::Debug);
    assert_eq!(classify(i64::MIN), Severity::Debug);
}

#[test]
fn decode_frame_reads_level_and_data() {
    assert_eq!(
        decode_frame("{\"ts\":1.5,\"level\":4,\"data\":\"boot\",\"extra\":true}"),
        Some(LogMessage { level: 4, data: String::from("boot") })
    );
    assert_eq!(decode_frame("[]"), None);
    let doc = parse_json("{\"ts\":0,\"level\":-1,\"data\":\"d\"}").unwrap();
    assert_eq!(read_log_message(&doc), Some(LogMessage { level: -1, data: String::from("d") }));
}

#[test]
fn begin_connects_only_to_an_addressable_endpoint() {
    let url = String::from("ws://h:1/debug/log");
    assert_eq!(
        begin(url.clone(), true),
        (StreamState::Disconnected { retry_delay: 0 }, StreamAction::Connect { after_seconds: 0, url: url.clone() })
    );
    assert_eq!(begin(url, false), (StreamState::Stopped, StreamAction::GiveUp));
}

#[test]
fn forward_passes_a_message_on_or_notes_the_frame() {
    let message = |level: i64| Some(LogMessage { level, data: String::from("d") });
    assert_eq!(
        forward(String::from("raw"), message(-1)),
        StreamAction::Forward { severity: Severity::Info, text: String::from("d") }
    );
    assert_eq!(
        forward(String::from("raw"), message(3)),
        StreamAction::Forward { severity: Severity::Debug, text: String::from("d") }
    );
    assert_eq!(forward(String::from("raw"), None), StreamAction::Undecoded { raw: String::from("raw") });
}
