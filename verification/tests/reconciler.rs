use shelly_remote_helper::json::{parse_json, Json};
use shelly_remote_helper::service::reconciler::{
    after_creating, after_listing, save_script_to_shelly, upload, SyncAction, SyncEvent, SyncState,
    JS_STOP_FUNCTION,
};
use shelly_remote_helper::service::shelly_rest_api::{
    DeviceError, Exchange, Method, Request, Script, Shelly,
};

fn device() -> Shelly {
    Shelly::new(String::from("10.0.0.2"), String::from("admin"), String::from("secret"))
}

fn ok(body: &str) -> SyncEvent {
    SyncEvent::Exchanged(Exchange::Answered { status: 200, body: Some(String::from(body)) })
}

fn status(code: u16) -> SyncEvent {
    SyncEvent::Exchanged(Exchange::Answered { status: code, body: Some(String::from("{}")) })
}

fn changed(path: &str) -> SyncEvent {
    SyncEvent::Changed { path: String::from(path) }
}

fn content(text: &str) -> SyncEvent {
    SyncEvent::Content(Some(String::from(text)))
}

fn sent(action: SyncAction) -> Request {
    match action {
        SyncAction::Send(request) => request,
        other => panic!("expected a request, got {:?}", other),
    }
}

fn blink(running: Option<bool>) -> Script {
    Script { id: 7, name: String::from("blink"), enable: None, running }
}

/// Runs the attempt up to the answer of the list request.
fn listed(shelly: &Shelly, autorun: bool, list_body: &str) -> (SyncState, SyncAction) {
    let (state, action) = save_script_to_shelly(shelly, autorun, SyncState::Idle, changed("dir/blink.js"));
    assert_eq!(action, SyncAction::ReadFile { path: String::from("dir/blink.js") });
    let (state, action) = save_script_to_shelly(shelly, autorun, state, content("print(1);"));
    assert_eq!(sent(action), shelly.script_list());
    save_script_to_shelly(shelly, autorun, state, ok(list_body))
}

fn assert_uploads(request: &Request, id: i64, content: &str) {
    assert_eq!(request.method, Method::Post);
    assert_eq!(request.url, "http://10.0.0.2/rpc/Script.PutCode");
    let doc = parse_json(request.body.as_ref().unwrap().as_str()).unwrap();
    let mut code = String::from(content);
    code.push_str(JS_STOP_FUNCTION);
    assert_eq!(doc.get("id"), Some(&Json::Int(id)));
    assert_eq!(doc.get("code"), Some(&Json::Str(code)));
    assert_eq!(doc.get("append"), Some(&Json::Bool(false)));
}

#[test]
fn file_without_script_extension_is_a_no_op() {
    let shelly = device();
    for path in ["notes.txt", "dir/readme", "blink.js.bak", "", "dir.js/file"] {
        let (state, action) = save_script_to_shelly(&shelly, false, SyncState::Idle, changed(path));
        assert_eq!(state, SyncState::Idle);
        assert_eq!(action, SyncAction::Finish(Ok(())));
    }
}

#[test]
fn script_file_is_read_before_anything_is_sent() {
    let (state, action) = save_script_to_shelly(&device(), false, SyncState::Idle, changed("dir/blink.js"));
    assert_eq!(state, SyncState::Reading { name: String::from("blink") });
    assert_eq!(action, SyncAction::ReadFile { path: String::from("dir/blink.js") });
}

#[test]
fn unreadable_file_ends_the_attempt() {
    let state = SyncState::Reading { name: String::from("blink") };
    let (state, action) = save_script_to_shelly(&device(), false, state, SyncEvent::Content(None));
    assert_eq!(state, SyncState::Idle);
    assert_eq!(action, SyncAction::Finish(Err(DeviceError::LocalIOFailure)));
}

#[test]
fn new_script_is_created_uploaded_and_started() {
    let shelly = device();
    let (state, action) = listed(&shelly, false, "{\"scripts\":[]}");
    assert_eq!(sent(action), shelly.script_create("blink"));
    assert_eq!(
        state,
        SyncState::Creating { name: String::from("blink"), code: String::from("print(1);") }
    );
    let (state, action) = save_script_to_shelly(&shelly, false, state, ok("{\"id\":7}"));
    assert_eq!(state, SyncState::Uploading { script: blink(None) });
    assert_uploads(&sent(action), 7, "print(1);");
    let (state, action) = save_script_to_shelly(&shelly, false, state, ok(""));
    assert_eq!(state, SyncState::Starting);
    assert_eq!(sent(action), shelly.script_start(&blink(None), false).unwrap());
    let (state, action) = save_script_to_shelly(&shelly, false, state, ok(""));
    assert_eq!(state, SyncState::Idle);
    assert_eq!(action, SyncAction::Finish(Ok(())));
}

#[test]
fn existing_running_script_is_stopped_then_uploaded_then_started() {
    let shelly = device();
    let list = "{\"scripts\":[{\"id\":3,\"name\":\"other\",\"running\":false},\
                {\"id\":7,\"name\":\"blink\",\"enable\":true,\"running\":true}]}";
    let existing = Script { id: 7, name: String::from("blink"), enable: Some(true), running: Some(true) };
    let (state, action) = listed(&shelly, true, list);
    assert_eq!(sent(action), shelly.script_stop(&existing).unwrap());
    let (state, action) = save_script_to_shelly(&shelly, true, state, ok(""));
    assert_eq!(state, SyncState::Uploading { script: existing.duplicate() });
    assert_uploads(&sent(action), 7, "print(1);");
    let (state, action) = save_script_to_shelly(&shelly, true, state, ok(""));
    assert_eq!(state, SyncState::Starting);
    assert_eq!(sent(action), shelly.script_start(&existing, true).unwrap());
    let (state, action) = save_script_to_shelly(&shelly, true, state, ok(""));
    assert_eq!(state, SyncState::Idle);
    assert_eq!(action, SyncAction::Finish(Ok(())));
}

#[test]
fn running_script_is_not_restarted_without_autorun() {
    let shelly = device();
    let (state, action) = listed(&shelly, false, "{\"scripts\":[{\"id\":7,\"name\":\"blink\",\"running\":true}]}");
    assert_eq!(sent(action), shelly.script_stop(&blink(Some(true))).unwrap());
    let (state, action) = save_script_to_shelly(&shelly, false, state, ok(""));
    assert_uploads(&sent(action), 7, "print(1);");
    let (state, action) = save_script_to_shelly(&shelly, false, state, ok(""));
    assert_eq!(state, SyncState::Idle);
    assert_eq!(action, SyncAction::Finish(Ok(())));
}

#[test]
fn idle_script_is_uploaded_without_a_stop() {
    let shelly = device();
    let (state, action) = listed(&shelly, false, "{\"scripts\":[{\"id\":7,\"name\":\"blink\",\"running\":false}]}");
    assert_eq!(state, SyncState::Uploading { script: blink(Some(false)) });
    assert_uploads(&sent(action), 7, "print(1);");
}

#[test]
fn second_sync_reuses_the_created_descriptor() {
    let shelly = device();
    let (state, _) = listed(&shelly, false, "{\"scripts\":[]}");
    let (first, _) = save_script_to_shelly(&shelly, false, state, ok("{\"id\":7}"));
    assert_eq!(first, SyncState::Uploading { script: blink(None) });
    let (second, action) = listed(&shelly, false, "{\"scripts\":[{\"id\":7,\"name\":\"blink\"}]}");
    assert_eq!(second, SyncState::Stopping { script: blink(None), code: String::from("print(1);") });
    assert_eq!(sent(action), shelly.script_stop(&blink(None)).unwrap());
}

#[test]
fn unauthorized_list_ends_the_attempt() {
    let shelly = device();
    let (state, _) = save_script_to_shelly(&shelly, false, SyncState::Idle, changed("blink.js"));
    let (state, _) = save_script_to_shelly(&shelly, false, state, content("print(1);"));
    let (state, action) = save_script_to_shelly(&shelly, false, state, status(401));
    assert_eq!(state, SyncState::Idle);
    assert_eq!(action, SyncAction::Finish(Err(DeviceError::ClientRequestFailure { code: 401 })));
}

#[test]
fn failure_in_any_step_ends_the_attempt() {
    let shelly = device();
    let server = Err(DeviceError::ServerFailure { code: 500, body: Some(String::from("{}")) });
    let waiting = [
        SyncState::Listing { name: String::from("blink"), code: String::from("x") },
        SyncState::Creating { name: String::from("blink"), code: String::from("x") },
        SyncState::Stopping { script: blink(Some(true)), code: String::from("x") },
        SyncState::Uploading { script: blink(Some(true)) },
        SyncState::Starting,
    ];
    for state in waiting {
        let (next, action) = save_script_to_shelly(&shelly, true, state, status(500));
        assert_eq!(next, SyncState::Idle);
        assert_eq!(action, SyncAction::Finish(server.clone()));
    }
    let state = SyncState::Uploading { script: blink(None) };
    let (next, action) = save_script_to_shelly(&shelly, true, state, SyncEvent::Exchanged(Exchange::Failed));
    assert_eq!(next, SyncState::Idle);
    assert_eq!(action, SyncAction::Finish(Err(DeviceError::TransportFailure)));
}

#[test]
fn malformed_list_is_a_parse_failure() {
    let (state, action) = listed(&device(), false, "{\"scripts\":7}");
    assert_eq!(state, SyncState::Idle);
    assert_eq!(action, SyncAction::Finish(Err(DeviceError::ParseFailure)));
}

#[test]
fn event_that_the_state_does_not_wait_for_changes_nothing() {
    let shelly = device();
    let (state, action) = save_script_to_shelly(&shelly, false, SyncState::Idle, ok("{}"));
    assert_eq!((state, action), (SyncState::Idle, SyncAction::Wait));
    let (state, action) = save_script_to_shelly(&shelly, false, SyncState::Starting, changed("a.js"));
    assert_eq!((state, action), (SyncState::Starting, SyncAction::Wait));
    let reading = SyncState::Reading { name: String::from("blink") };
    let (state, action) = save_script_to_shelly(&shelly, false, reading, ok("{}"));
    assert_eq!(state, SyncState::Reading { name: String::from("blink") });
    assert_eq!(action, SyncAction::Wait);
}

#[test]
fn stop_function_follows_the_code() {
    assert!(JS_STOP_FUNCTION.starts_with("\n\nfunction stopCurrentScript() {\n"));
    assert!(JS_STOP_FUNCTION.contains("\"Script.Stop\""));
    assert!(JS_STOP_FUNCTION.ends_with("};\n"));
}

#[test]
fn after_listing_decides_on_the_listed_scripts() {
    let shelly = device();
    let name = || String::from("blink");
    let code = || String::from("x");
    let other = Script { id: 1, name: String::from("other"), enable: None, running: Some(true) };
    let (state, action) = after_listing(&shelly, name(), code(), Ok(vec![other.duplicate()]));
    assert_eq!(state, SyncState::Creating { name: name(), code: code() });
    assert_eq!(sent(action), shelly.script_create("blink"));
    let listed = vec![other.duplicate(), blink(Some(true)), blink(Some(false))];
    let (state, action) = after_listing(&shelly, name(), code(), Ok(listed));
    assert_eq!(state, SyncState::Stopping { script: blink(Some(true)), code: code() });
    assert_eq!(sent(action), shelly.script_stop(&blink(Some(true))).unwrap());
    let (state, action) = after_listing(&shelly, name(), code(), Ok(vec![blink(Some(false))]));
    assert_eq!(state, SyncState::Uploading { script: blink(Some(false)) });
    assert_uploads(&sent(action), 7, "x");
    let (state, action) = after_listing(&shelly, name(), code(), Err(DeviceError::TransportFailure));
    assert_eq!(state, SyncState::Idle);
    assert_eq!(action, SyncAction::Finish(Err(DeviceError::TransportFailure)));
}

#[test]
fn after_creating_uploads_to_the_new_script() {
    let shelly = device();
    let (state, action) = after_creating(&shelly, String::from("x"), Ok(blink(None)));
    assert_eq!(state, SyncState::Uploading { script: blink(None) });
    assert_uploads(&sent(action), 7, "x");
    let failure = DeviceError::ParseFailure;
    let (state, action) = after_creating(&shelly, String::from("x"), Err(failure.clone()));
    assert_eq!(state, SyncState::Idle);
    assert_eq!(action, SyncAction::Finish(Err(failure)));
}

#[test]
fn upload_replaces_the_code_and_appends_the_stop_function() {
    let shelly = device();
    let (state, action) = upload(&shelly, blink(Some(true)), String::from("let a = 1;"));
    assert_eq!(state, SyncState::Uploading { script: blink(Some(true)) });
    let mut full = String::from("let a = 1;");
    full.push_str(JS_STOP_FUNCTION);
    assert_eq!(sent(action), shelly.script_put_code(&blink(None), full.as_str(), false));
}
