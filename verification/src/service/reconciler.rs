//! The sync reconciler: drives one changed local file to a consistent state
//! on the device. It is a state machine; the caller reads the file, sends
//! each request and hands back what happened.

use crate::service::shelly_rest_api::{
    create_outcome, create_request, created_id_of, document_outcome, find_script,
    lemma_position_from, list_model, list_outcome, list_request, plain_outcome, position_of,
    put_code_request, start_needed, start_request, status_outcome, stop_needed, stop_request,
    DeviceError, Exchange, Request, RequestView, Script, Shelly,
};
use crate::text::{has_script_extension, script_name, script_name_of};
use vstd::prelude::*;
use vstd::string::*;

verus! {

/// JavaScript that lets a running script stop itself. It follows the code
/// of every file that is uploaded.
pub const JS_STOP_FUNCTION: &'static str =
    "\n\nfunction stopCurrentScript() {\n    let SCRIPT_ID = Shelly.getCurrentScriptId();\n    let msg = \"script \" + SCRIPT_ID + \" has been stopped\";\n    print(msg);\n    Shelly.call(\n        \"Script.Stop\",\n        { \"id\" : SCRIPT_ID},\n        function (result, error_code, error_message, usedata) {}\n    );\n};\n";

/// The code that is uploaded for a file: its content, then the stop
/// function.
pub open spec fn injected_code(content: Seq<char>) -> Seq<char> {
    content + JS_STOP_FUNCTION@
}

/// Where a sync attempt stands.
#[derive(Debug, PartialEq, Eq)]
pub enum SyncState {
    /// No attempt is under way.
    Idle,
    /// The content of the file has been asked for.
    Reading { name: String },
    /// The script list has been asked for.
    Listing { name: String, code: String },
    /// A script of the name is being created.
    Creating { name: String, code: String },
    /// The script is being stopped before its code is replaced.
    Stopping { script: Script, code: String },
    /// The code is being uploaded.
    Uploading { script: Script },
    /// The script is being started.
    Starting,
}

/// What happened since the last step.
#[derive(Debug, PartialEq, Eq)]
pub enum SyncEvent {
    /// The file at `path` changed.
    Changed { path: String },
    /// The file was read, or could not be.
    Content(Option<String>),
    /// The request of the last step was sent, with this outcome.
    Exchanged(Exchange),
}

/// What the caller is to do next.
#[derive(Debug, PartialEq, Eq)]
pub enum SyncAction {
    /// Nothing: the event is not one that the state waits for.
    Wait,
    /// Read the file and hand back its content.
    ReadFile { path: String },
    /// Send the request and hand back the exchange.
    Send(Request),
    /// The attempt is over, with this result.
    Finish(Result<(), DeviceError>),
}

/// Whether an action is to send exactly this request.
pub open spec fn sends(action: SyncAction, request: RequestView) -> bool {
    action matches SyncAction::Send(r) && r@ == request
}

/// Whether an attempt ends here with `result`.
pub open spec fn finishes(
    next: SyncState,
    action: SyncAction,
    result: Result<(), DeviceError>,
) -> bool {
    next == SyncState::Idle && action == SyncAction::Finish(result)
}

/// Whether the code upload for `script` begins here.
pub open spec fn uploads(
    shelly: Shelly,
    script: Script,
    code: Seq<char>,
    next: SyncState,
    action: SyncAction,
) -> bool {
    next == (SyncState::Uploading { script }) && sends(
        action,
        put_code_request(shelly, script.id as int, injected_code(code), false),
    )
}

/// The step out of `Idle`: a file that is no script ends the attempt with
/// success at once; for a script the content is asked for.
pub open spec fn idle_step(path: String, next: SyncState, action: SyncAction) -> bool {
    match script_name_of(path@) {
        None => finishes(next, action, Ok(())),
        Some(n) => {
            &&& next matches SyncState::Reading { name } && name@ == n
            &&& action == (SyncAction::ReadFile { path })
        },
    }
}

/// What follows the script list: an error ends the attempt; a script of
/// the name is stopped where that takes a request, else its code is
/// uploaded; without such a script one is created.
pub open spec fn listed_step(
    shelly: Shelly,
    name: String,
    code: String,
    listed: Result<Seq<Script>, DeviceError>,
    next: SyncState,
    action: SyncAction,
) -> bool {
    match listed {
        Err(e) => finishes(next, action, Err(e)),
        Ok(scripts) => match position_of(scripts, name@) {
            None => next == (SyncState::Creating { name, code }) && sends(
                action,
                create_request(shelly, name@),
            ),
            Some(i) => if stop_needed(scripts[i].running) {
                next == (SyncState::Stopping { script: scripts[i], code }) && sends(
                    action,
                    stop_request(shelly, scripts[i].id as int),
                )
            } else {
                uploads(shelly, scripts[i], code@, next, action)
            },
        },
    }
}

/// The step out of `Listing`: what follows the list that the exchange
/// holds.
pub open spec fn listing_step(
    shelly: Shelly,
    name: String,
    code: String,
    exchange: Exchange,
    next: SyncState,
    action: SyncAction,
) -> bool {
    listed_step(shelly, name, code, list_outcome(exchange), next, action)
}

/// What follows an attempt to create the script: an error ends the attempt,
/// the code of a new script is uploaded.
pub open spec fn created_step(
    shelly: Shelly,
    code: String,
    created: Result<Script, DeviceError>,
    next: SyncState,
    action: SyncAction,
) -> bool {
    match created {
        Err(e) => finishes(next, action, Err(e)),
        Ok(script) => uploads(shelly, script, code@, next, action),
    }
}

/// The step out of `Uploading`: an error ends the attempt; then the script
/// is started where that takes a request, else the attempt ends with
/// success.
pub open spec fn uploading_step(
    shelly: Shelly,
    autorun: bool,
    script: Script,
    exchange: Exchange,
    next: SyncState,
    action: SyncAction,
) -> bool {
    match plain_outcome(exchange) {
        Err(e) => finishes(next, action, Err(e)),
        Ok(_) => if start_needed(script.running, autorun) {
            next == SyncState::Starting && sends(action, start_request(shelly, script.id as int))
        } else {
            finishes(next, action, Ok(()))
        },
    }
}

/// The transition relation of the reconciler: from a state and an event to
/// the next state and the action.
pub open spec fn sync_step(
    shelly: Shelly,
    autorun: bool,
    state: SyncState,
    event: SyncEvent,
    next: SyncState,
    action: SyncAction,
) -> bool {
    match (state, event) {
        (SyncState::Idle, SyncEvent::Changed { path }) => idle_step(path, next, action),
        (SyncState::Reading { name }, SyncEvent::Content(None)) => finishes(
            next,
            action,
            Err(DeviceError::LocalIOFailure),
        ),
        (SyncState::Reading { name }, SyncEvent::Content(Some(code))) => {
            &&& next == (SyncState::Listing { name, code })
            &&& sends(action, list_request(shelly))
        },
        (SyncState::Listing { name, code }, SyncEvent::Exchanged(exchange)) => listing_step(
            shelly,
            name,
            code,
            exchange,
            next,
            action,
        ),
        (SyncState::Creating { name, code }, SyncEvent::Exchanged(exchange)) => created_step(
            shelly,
            code,
            create_outcome(name, exchange),
            next,
            action,
        ),
        (SyncState::Stopping { script, code }, SyncEvent::Exchanged(exchange)) => match plain_outcome(
            exchange,
        ) {
            Err(e) => finishes(next, action, Err(e)),
            Ok(_) => uploads(shelly, script, code@, next, action),
        },
        (SyncState::Uploading { script }, SyncEvent::Exchanged(exchange)) => uploading_step(
            shelly,
            autorun,
            script,
            exchange,
            next,
            action,
        ),
        (SyncState::Starting, SyncEvent::Exchanged(exchange)) => finishes(
            next,
            action,
            plain_outcome(exchange),
        ),
        _ => next == state && action == SyncAction::Wait,
    }
}

/// Whether a state waits for the outcome of a request.
pub open spec fn awaits_exchange(state: SyncState) -> bool {
    !(state is Idle) && !(state is Reading)
}

/// A file without the script extension is left alone: the attempt ends with
/// success at once, and nothing is read or sent for it.
pub proof fn lemma_non_script_is_no_op(
    shelly: Shelly,
    autorun: bool,
    path: String,
    next: SyncState,
    action: SyncAction,
)
    requires
        !has_script_extension(path@),
        sync_step(shelly, autorun, SyncState::Idle, SyncEvent::Changed { path }, next, action),
    ensures
        next == SyncState::Idle,
        action == SyncAction::Finish(Ok(())),
        !(action is Send),
        !(action is ReadFile),
{
}

/// A script that the device lists is never created again: the attempt goes
/// on with the first listed script of the name, which is the listed one
/// where the device holds each name once. So syncing a file twice works on
/// one descriptor.
pub proof fn lemma_listed_script_is_reused(
    shelly: Shelly,
    autorun: bool,
    name: String,
    code: String,
    exchange: Exchange,
    scripts: Seq<Script>,
    k: int,
    next: SyncState,
    action: SyncAction,
)
    requires
        list_outcome(exchange) == Ok::<Seq<Script>, DeviceError>(scripts),
        0 <= k < scripts.len(),
        scripts[k].name@ == name@,
        sync_step(
            shelly,
            autorun,
            SyncState::Listing { name, code },
            SyncEvent::Exchanged(exchange),
            next,
            action,
        ),
    ensures
        !(next is Creating),
        position_of(scripts, name@) matches Some(i) && 0 <= i <= k && scripts[i].name@ == name@
            && (next == (SyncState::Stopping { script: scripts[i], code }) || next == (
        SyncState::Uploading { script: scripts[i] })),
        (forall|j: int| 0 <= j < scripts.len() && j != k ==> (#[trigger] scripts[j]).name@
            != name@) ==> position_of(scripts, name@) == Some(k),
{
    lemma_position_from(scripts, name@, 0);
}

/// A request that fails ends the attempt with its error, whatever the step:
/// nothing more is sent for the file.
pub proof fn lemma_failed_exchange_ends_attempt(
    shelly: Shelly,
    autorun: bool,
    state: SyncState,
    exchange: Exchange,
    error: DeviceError,
    next: SyncState,
    action: SyncAction,
)
    requires
        awaits_exchange(state),
        status_outcome(exchange) == Err::<Option<String>, DeviceError>(error),
        sync_step(shelly, autorun, state, SyncEvent::Exchanged(exchange), next, action),
    ensures
        finishes(next, action, Err(error)),
        !(action is Send),
{
}

/// Between the list and the end of an attempt the requests come in one
/// order: a stop or a create is followed by the upload, and the upload by
/// the start or the end. No state sends a stop or a create after the
/// upload, nor an upload after the start.
pub proof fn lemma_steps_keep_their_order(
    shelly: Shelly,
    autorun: bool,
    state: SyncState,
    exchange: Exchange,
    next: SyncState,
    action: SyncAction,
)
    requires
        sync_step(shelly, autorun, state, SyncEvent::Exchanged(exchange), next, action),
    ensures
        (state is Stopping || state is Creating) ==> next is Uploading || next is Idle,
        state is Uploading ==> next is Starting || next is Idle,
        state is Starting ==> next is Idle,
        next is Stopping || next is Creating ==> state is Listing,
{
}

/// The run for a script that the device does not have yet, where every
/// request succeeds: the file is read, the list is asked for, the script is
/// created, its code is uploaded whole under the id that the device
/// assigned, the script is started, and the attempt ends with success.
pub proof fn lemma_new_script_run(
    shelly: Shelly,
    autorun: bool,
    path: String,
    content: String,
    exchanges: Seq<Exchange>,
    id: i32,
    states: Seq<SyncState>,
    actions: Seq<SyncAction>,
)
    requires
        exchanges.len() == 4,
        states.len() == 6,
        actions.len() == 6,
        sync_step(
            shelly,
            autorun,
            SyncState::Idle,
            SyncEvent::Changed { path },
            states[0],
            actions[0],
        ),
        sync_step(
            shelly,
            autorun,
            states[0],
            SyncEvent::Content(Some(content)),
            states[1],
            actions[1],
        ),
        forall|i: int|
            0 <= i < 4 ==> sync_step(
                shelly,
                autorun,
                states[i + 1],
                SyncEvent::Exchanged(#[trigger] exchanges[i]),
                states[i + 2],
                actions[i + 2],
            ),
        script_name_of(path@) matches Some(name) && list_outcome(exchanges[0]) matches Ok(scripts)
            && position_of(scripts, name) is None,
        document_outcome(exchanges[1]) matches Ok(doc) && created_id_of(doc) == Some(id),
        plain_outcome(exchanges[2]) is Ok,
        plain_outcome(exchanges[3]) is Ok,
    ensures
        actions[0] == (SyncAction::ReadFile { path }),
        sends(actions[1], list_request(shelly)),
        sends(actions[2], create_request(shelly, script_name_of(path@).unwrap())),
        sends(actions[3], put_code_request(shelly, id as int, injected_code(content@), false)),
        sends(actions[4], start_request(shelly, id as int)),
        finishes(states[5], actions[5], Ok(())),
{
    assert(sync_step(
        shelly,
        autorun,
        states[1],
        SyncEvent::Exchanged(exchanges[0]),
        states[2],
        actions[2],
    ));
    assert(sync_step(
        shelly,
        autorun,
        states[2],
        SyncEvent::Exchanged(exchanges[1]),
        states[3],
        actions[3],
    ));
    assert(sync_step(
        shelly,
        autorun,
        states[3],
        SyncEvent::Exchanged(exchanges[2]),
        states[4],
        actions[4],
    ));
    assert(sync_step(
        shelly,
        autorun,
        states[4],
        SyncEvent::Exchanged(exchanges[3]),
        states[5],
        actions[5],
    ));
}

/// The run for a script that the device lists as running or in an unknown
/// state, where every request succeeds: the script is stopped first, then
/// its code is uploaded whole, and only then is it started again (where
/// that takes a request) before the attempt ends with success.
pub proof fn lemma_listed_script_run(
    shelly: Shelly,
    autorun: bool,
    name: String,
    code: String,
    exchanges: Seq<Exchange>,
    target: Script,
    states: Seq<SyncState>,
    actions: Seq<SyncAction>,
)
    requires
        exchanges.len() == 4,
        states.len() == 4,
        actions.len() == 4,
        sync_step(
            shelly,
            autorun,
            SyncState::Listing { name, code },
            SyncEvent::Exchanged(exchanges[0]),
            states[0],
            actions[0],
        ),
        forall|i: int|
            1 <= i < 4 ==> sync_step(
                shelly,
                autorun,
                states[i - 1],
                SyncEvent::Exchanged(#[trigger] exchanges[i]),
                states[i],
                actions[i],
            ),
        list_outcome(exchanges[0]) matches Ok(scripts) && position_of(scripts, name@) matches Some(
            i,
        ) && scripts[i] == target,
        stop_needed(target.running),
        forall|i: int| 1 <= i < 4 ==> plain_outcome(#[trigger] exchanges[i]) is Ok,
    ensures
        sends(actions[0], stop_request(shelly, target.id as int)),
        sends(actions[1], put_code_request(shelly, target.id as int, injected_code(code@), false)),
        start_needed(target.running, autorun) ==> sends(
            actions[2],
            start_request(shelly, target.id as int),
        ) && finishes(states[3], actions[3], Ok(())),
        !start_needed(target.running, autorun) ==> finishes(states[2], actions[2], Ok(())),
{
    assert(sync_step(
        shelly,
        autorun,
        states[0],
        SyncEvent::Exchanged(exchanges[1]),
        states[1],
        actions[1],
    ));
    assert(sync_step(
        shelly,
        autorun,
        states[1],
        SyncEvent::Exchanged(exchanges[2]),
        states[2],
        actions[2],
    ));
    assert(sync_step(
        shelly,
        autorun,
        states[2],
        SyncEvent::Exchanged(exchanges[3]),
        states[3],
        actions[3],
    ));
    assert(plain_outcome(exchanges[1]) is Ok);
    assert(plain_outcome(exchanges[2]) is Ok);
    assert(plain_outcome(exchanges[3]) is Ok);
}

/// Begins the upload of `code`, followed by the stop function, as the whole
/// code of `script`.
pub fn upload(shelly: &Shelly, script: Script, code: String) -> (r: (SyncState, SyncAction))
    ensures
        uploads(*shelly, script, code@, r.0, r.1),
{
    let mut full = code;
    full.append(JS_STOP_FUNCTION);
    let request = shelly.script_put_code(&script, full.as_str(), false);
    (SyncState::Uploading { script }, SyncAction::Send(request))
}

/// Decides what follows the script list for a file named `name`: create
/// the script, stop the listed one, or upload at once.
pub fn after_listing(
    shelly: &Shelly,
    name: String,
    code: String,
    listed: Result<Vec<Script>, DeviceError>,
) -> (r: (SyncState, SyncAction))
    ensures
        listed_step(*shelly, name, code, list_model(listed), r.0, r.1),
{
    match listed {
        Err(e) => (SyncState::Idle, SyncAction::Finish(Err(e))),
        Ok(scripts) => match find_script(&scripts, name.as_str()) {
            None => {
                let request = shelly.script_create(name.as_str());
                (SyncState::Creating { name, code }, SyncAction::Send(request))
            },
            Some(i) => {
                let script = scripts[i].duplicate();
                match shelly.script_stop(&script) {
                    Some(request) => (
                        SyncState::Stopping { script, code },
                        SyncAction::Send(request),
                    ),
                    None => upload(shelly, script, code),
                }
            },
        },
    }
}

/// Decides what follows an attempt to create the script.
pub fn after_creating(shelly: &Shelly, code: String, created: Result<Script, DeviceError>) -> (r: (
    SyncState,
    SyncAction,
))
    ensures
        created_step(*shelly, code, created, r.0, r.1),
{
    match created {
        Err(e) => (SyncState::Idle, SyncAction::Finish(Err(e))),
        Ok(script) => upload(shelly, script, code),
    }
}

fn after_upload(shelly: &Shelly, autorun: bool, script: Script, exchange: Exchange) -> (r: (
    SyncState,
    SyncAction,
))
    ensures
        uploading_step(*shelly, autorun, script, exchange, r.0, r.1),
{
    match Shelly::plain_reply(exchange) {
        Err(e) => (SyncState::Idle, SyncAction::Finish(Err(e))),
        Ok(_) => match shelly.script_start(&script, autorun) {
            Some(request) => (SyncState::Starting, SyncAction::Send(request)),
            None => (SyncState::Idle, SyncAction::Finish(Ok(()))),
        },
    }
}

/// One step of syncing a file to the device. Begin in `SyncState::Idle`
/// with `SyncEvent::Changed`; do what the action says and come back with
/// the event it asks for, until the action is `Finish`.
pub fn save_script_to_shelly(
    shelly: &Shelly,
    autorun: bool,
    state: SyncState,
    event: SyncEvent,
) -> (r: (SyncState, SyncAction))
    ensures
        sync_step(*shelly, autorun, state, event, r.0, r.1),
{
    match (state, event) {
        (SyncState::Idle, SyncEvent::Changed { path }) => match script_name(path.as_str()) {
            None => (SyncState::Idle, SyncAction::Finish(Ok(()))),
            Some(name) => (SyncState::Reading { name }, SyncAction::ReadFile { path }),
        },
        (SyncState::Reading { name }, SyncEvent::Content(None)) => (
            SyncState::Idle,
            SyncAction::Finish(Err(DeviceError::LocalIOFailure)),
        ),
        (SyncState::Reading { name }, SyncEvent::Content(Some(code))) => (
            SyncState::Listing { name, code },
            SyncAction::Send(shelly.script_list()),
        ),
        (SyncState::Listing { name, code }, SyncEvent::Exchanged(exchange)) => after_listing(
            shelly,
            name,
            code,
            Shelly::script_list_reply(exchange),
        ),
        (SyncState::Creating { name, code }, SyncEvent::Exchanged(exchange)) => after_creating(
            shelly,
            code,
            Shelly::script_create_reply(name, exchange),
        ),
        (SyncState::Stopping { script, code }, SyncEvent::Exchanged(exchange)) => {
            match Shelly::plain_reply(exchange) {
                Err(e) => (SyncState::Idle, SyncAction::Finish(Err(e))),
                Ok(_) => upload(shelly, script, code),
            }
        },
        (SyncState::Uploading { script }, SyncEvent::Exchanged(exchange)) => after_upload(
            shelly,
            autorun,
            script,
            exchange,
        ),
        (SyncState::Starting, SyncEvent::Exchanged(exchange)) => (
            SyncState::Idle,
            SyncAction::Finish(Shelly::plain_reply(exchange)),
        ),
        (state, _) => (state, SyncAction::Wait),
    }
}

} // verus!
