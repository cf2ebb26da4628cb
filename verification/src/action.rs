//! The one-shot commands: start or stop a script by its name, list the
//! scripts, and describe the device to an editor. Each takes the outcome of
//! the list request where it needs one and says what is to be done next.

use crate::service::shelly_rest_api::{
    find_script, list_model, list_outcome, position_of, start_request, stop_needed,
    stop_request, DeviceError, Exchange, Request, Script, Shelly,
};
use crate::service::vscode_tasks::{is_setup_for, SetupVsCode};
use crate::text::{decimal, int_to_string};
use vstd::prelude::*;
use vstd::string::*;

verus! {

/// Why a command could not go on.
#[derive(Debug, Clone, Copy, PartialEq, Eq, Structural)]
pub enum ActionError {
    /// The script list could not be had from the device.
    ListUnavailable,
    /// The device has no script of the name.
    UnknownScript,
    /// No editor was chosen to write a configuration for.
    NoProfile,
}

/// One line of the script table.
#[derive(Debug, PartialEq, Eq)]
pub struct ScriptRow {
    pub id: String,
    pub name: String,
    pub enable: String,
    pub running: String,
}

/// How the table words the `enable` flag.
pub open spec fn enable_label(flag: Option<bool>) -> Seq<char> {
    match flag {
        Some(true) => "Enable"@,
        Some(false) => "Disable"@,
        None => "Unknown"@,
    }
}

/// How the table words the `running` flag.
pub open spec fn running_label(flag: Option<bool>) -> Seq<char> {
    match flag {
        Some(true) => "Running"@,
        Some(false) => "Idle"@,
        None => "Unknown"@,
    }
}

/// Whether `row` is the table line of `script`.
pub open spec fn is_row_of(row: ScriptRow, script: Script) -> bool {
    &&& row.id@ == decimal(script.id as int)
    &&& row.name == script.name
    &&& row.enable@ == enable_label(script.enable)
    &&& row.running@ == running_label(script.running)
}

/// Whether `rows` is the table of `scripts`: one line for each, in order.
pub open spec fn is_table_of(rows: Seq<ScriptRow>, scripts: Seq<Script>) -> bool {
    &&& rows.len() == scripts.len()
    &&& forall|i: int| 0 <= i < rows.len() ==> is_row_of(#[trigger] rows[i], scripts[i])
}

/// The configuration for Visual Studio Code, where `vscode` asks for it.
/// Without a chosen editor there is nothing to write.
pub fn setup(vscode: bool, host: &str, username: &str, password: &str) -> (r: Result<
    SetupVsCode,
    ActionError,
>)
    ensures
        vscode ==> (r matches Ok(config) && is_setup_for(config, host@, username@, password@)),
        !vscode ==> r == Err::<SetupVsCode, ActionError>(ActionError::NoProfile),
{
    if vscode {
        Ok(SetupVsCode::new(host, username, password))
    } else {
        Err(ActionError::NoProfile)
    }
}

/// What starting the script named `name` takes, given the outcome of the
/// list request: the start request for the first script of the name.
pub open spec fn start_plan(
    shelly: Shelly,
    name: Seq<char>,
    request: Result<Request, ActionError>,
    listed: Result<Seq<Script>, DeviceError>,
) -> bool {
    match listed {
        Err(_) => request == Err::<Request, ActionError>(ActionError::ListUnavailable),
        Ok(scripts) => match position_of(scripts, name) {
            None => request == Err::<Request, ActionError>(ActionError::UnknownScript),
            Some(i) => request matches Ok(r) && r@ == start_request(shelly, scripts[i].id as int),
        },
    }
}

/// What stopping the script named `name` takes, given the outcome of the
/// list request: the stop request for the first script of the name, or
/// nothing where that script is known to be idle.
pub open spec fn stop_plan(
    shelly: Shelly,
    name: Seq<char>,
    request: Result<Option<Request>, ActionError>,
    listed: Result<Seq<Script>, DeviceError>,
) -> bool {
    match listed {
        Err(_) => request == Err::<Option<Request>, ActionError>(ActionError::ListUnavailable),
        Ok(scripts) => match position_of(scripts, name) {
            None => request == Err::<Option<Request>, ActionError>(ActionError::UnknownScript),
            Some(i) => if stop_needed(scripts[i].running) {
                request matches Ok(Some(r)) && r@ == stop_request(shelly, scripts[i].id as int)
            } else {
                request == Ok::<Option<Request>, ActionError>(None)
            },
        },
    }
}

/// What the script table is, given the outcome of the list request.
pub open spec fn table_plan(
    table: Result<Vec<ScriptRow>, ActionError>,
    listed: Result<Seq<Script>, DeviceError>,
) -> bool {
    match listed {
        Err(_) => table == Err::<Vec<ScriptRow>, ActionError>(ActionError::ListUnavailable),
        Ok(scripts) => table matches Ok(rows) && is_table_of(rows@, scripts),
    }
}

/// The request that starts the script named `script_name` among the listed
/// scripts. A script that runs is started again.
pub fn start_listed(
    shelly: &Shelly,
    script_name: &str,
    listed: Result<Vec<Script>, DeviceError>,
) -> (r: Result<Request, ActionError>)
    ensures
        start_plan(*shelly, script_name@, r, list_model(listed)),
{
    match listed {
        Err(_) => Err(ActionError::ListUnavailable),
        Ok(scripts) => match find_script(&scripts, script_name) {
            None => Err(ActionError::UnknownScript),
            Some(i) => match shelly.script_start(&scripts[i], true) {
                Some(request) => Ok(request),
                None => unreached(),
            },
        },
    }
}

/// The request that stops the script named `script_name` among the listed
/// scripts; `Ok(None)` where the script is known to be idle, so that
/// nothing is to be sent.
pub fn stop_listed(
    shelly: &Shelly,
    script_name: &str,
    listed: Result<Vec<Script>, DeviceError>,
) -> (r: Result<Option<Request>, ActionError>)
    ensures
        stop_plan(*shelly, script_name@, r, list_model(listed)),
{
    match listed {
        Err(_) => Err(ActionError::ListUnavailable),
        Ok(scripts) => match find_script(&scripts, script_name) {
            None => Err(ActionError::UnknownScript),
            Some(i) => Ok(shelly.script_stop(&scripts[i])),
        },
    }
}

/// The request that starts the script named `script_name`, given the
/// outcome of the list request.
pub fn start(shelly: &Shelly, script_name: &str, listed: Exchange) -> (r: Result<
    Request,
    ActionError,
>)
    ensures
        start_plan(*shelly, script_name@, r, list_outcome(listed)),
{
    start_listed(shelly, script_name, Shelly::script_list_reply(listed))
}

/// The request that stops the script named `script_name`, given the
/// outcome of the list request.
pub fn stop(shelly: &Shelly, script_name: &str, listed: Exchange) -> (r: Result<
    Option<Request>,
    ActionError,
>)
    ensures
        stop_plan(*shelly, script_name@, r, list_outcome(listed)),
{
    stop_listed(shelly, script_name, Shelly::script_list_reply(listed))
}

fn enable_str(flag: Option<bool>) -> (r: &'static str)
    ensures
        r@ == enable_label(flag),
{
    match flag {
        Some(true) => "Enable",
        Some(false) => "Disable",
        None => "Unknown",
    }
}

fn running_str(flag: Option<bool>) -> (r: &'static str)
    ensures
        r@ == running_label(flag),
{
    match flag {
        Some(true) => "Running",
        Some(false) => "Idle",
        None => "Unknown",
    }
}

/// The table line of a script.
pub fn row(script: &Script) -> (r: ScriptRow)
    ensures
        is_row_of(r, *script),
{
    ScriptRow {
        id: int_to_string(script.id as i64),
        name: script.name.clone(),
        enable: String::from_str(enable_str(script.enable)),
        running: String::from_str(running_str(script.running)),
    }
}

/// The script table of the listed scripts: one line for each, in order.
pub fn table(listed: Result<Vec<Script>, DeviceError>) -> (r: Result<
    Vec<ScriptRow>,
    ActionError,
>)
    ensures
        table_plan(r, list_model(listed)),
{
    match listed {
        Err(_) => Err(ActionError::ListUnavailable),
        Ok(scripts) => {
            let mut rows: Vec<ScriptRow> = Vec::new();
            let mut i: usize = 0;
            while i < scripts.len()
                invariant
                    i <= scripts.len(),
                    rows@.len() == i,
                    forall|k: int| 0 <= k < i ==> is_row_of(#[trigger] rows@[k], scripts@[k]),
                decreases scripts.len() - i,
            {
                rows.push(row(&scripts[i]));
                i = i + 1;
            }
            Ok(rows)
        },
    }
}

/// The script table, given the outcome of the list request.
pub fn list(listed: Exchange) -> (r: Result<Vec<ScriptRow>, ActionError>)
    ensures
        table_plan(r, list_outcome(listed)),
{
    table(Shelly::script_list_reply(listed))
}

} // verus!
