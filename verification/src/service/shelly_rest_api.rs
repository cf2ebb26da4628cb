//! The device client: which request each script operation sends, and what
//! each answer of the device means. Sending is the caller's business; the
//! client turns operations into requests and exchanges into results.

use crate::json::{json_document, json_quoted, parse_json, quote, Json};
use crate::text::{decimal, int_to_string, same_text};
use vstd::prelude::*;
use vstd::string::*;

verus! {

/// A script as the device reports it. `None` in a flag means that the
/// device did not say.
#[derive(Debug, Clone, PartialEq, Eq)]
pub struct Script {
    /// The id that the device gave the script.
    pub id: i32,
    /// The name of the script, by which local files are matched.
    pub name: String,
    /// Whether the script is enabled on the device.
    pub enable: Option<bool>,
    /// Whether the script is running on the device.
    pub running: Option<bool>,
}

/// The HTTP method of a request.
#[derive(Debug, Clone, Copy, PartialEq, Eq, Structural)]
pub enum Method {
    Get,
    Post,
}

/// One request to the device. Whoever sends it signs it with HTTP Digest
/// authentication for `username` and `password`.
#[derive(Debug, Clone, PartialEq, Eq)]
pub struct Request {
    pub method: Method,
    pub url: String,
    pub body: Option<String>,
    pub username: String,
    pub password: String,
}

/// The mathematical content of a `Request`.
pub struct RequestView {
    pub method: Method,
    pub url: Seq<char>,
    pub body: Option<Seq<char>>,
    pub username: Seq<char>,
    pub password: Seq<char>,
}

impl View for Request {
    type V = RequestView;

    open spec fn view(&self) -> RequestView {
        RequestView {
            method: self.method,
            url: self.url@,
            body: match self.body {
                Some(b) => Some(b@),
                None => None,
            },
            username: self.username@,
            password: self.password@,
        }
    }
}

/// What came of sending one request: no answer at all, or an HTTP status
/// with the body where it could be read.
#[derive(Debug, Clone, PartialEq, Eq)]
pub enum Exchange {
    Failed,
    Answered { status: u16, body: Option<String> },
}

/// The ways in which a device operation or a sync attempt fails.
#[derive(Debug, Clone, PartialEq, Eq)]
pub enum DeviceError {
    /// The device answered with a 4xx status.
    ClientRequestFailure { code: u16 },
    /// The device answered with a 5xx status; the body where it could be read.
    ServerFailure { code: u16, body: Option<String> },
    /// The answer is not the document that the operation expects.
    ParseFailure,
    /// The request got no usable answer.
    TransportFailure,
    /// A local file could not be read.
    LocalIOFailure,
}

impl Script {
    /// A copy of this descriptor.
    pub fn duplicate(&self) -> (r: Script)
        ensures
            r == *self,
    {
        Script { id: self.id, name: self.name.clone(), enable: self.enable, running: self.running }
    }
}

/// The position of the first script named `name` among `scripts[from..]`.
pub open spec fn position_from(scripts: Seq<Script>, name: Seq<char>, from: int) -> Option<int>
    decreases scripts.len() - from,
{
    if from < 0 || from >= scripts.len() {
        None
    } else if scripts[from].name@ == name {
        Some(from)
    } else {
        position_from(scripts, name, from + 1)
    }
}

/// The position of the first script named `name`.
pub open spec fn position_of(scripts: Seq<Script>, name: Seq<char>) -> Option<int> {
    position_from(scripts, name, 0)
}

/// `position_from` finds the first script of the name at or behind `from`,
/// and finds none only where there is none.
pub proof fn lemma_position_from(scripts: Seq<Script>, name: Seq<char>, from: int)
    requires
        0 <= from,
    ensures
        match position_from(scripts, name, from) {
            Some(i) => from <= i < scripts.len() && scripts[i].name@ == name && forall|k: int|
                from <= k < i ==> (#[trigger] scripts[k]).name@ != name,
            None => forall|k: int| from <= k < scripts.len() ==> (#[trigger] scripts[k]).name@ != name,
        },
    decreases scripts.len() - from,
{
    if from < scripts.len() && scripts[from].name@ != name {
        lemma_position_from(scripts, name, from + 1);
    }
}

/// Finds the first script of a name.
pub fn find_script(scripts: &Vec<Script>, name: &str) -> (r: Option<usize>)
    ensures
        match r {
            Some(i) => position_of(scripts@, name@) == Some(i as int) && i < scripts.len(),
            None => position_of(scripts@, name@) is None,
        },
{
    let mut i: usize = 0;
    while i < scripts.len()
        invariant
            i <= scripts.len(),
            position_of(scripts@, name@) == position_from(scripts@, name@, i as int),
        decreases scripts.len() - i,
    {
        if same_text(scripts[i].name.as_str(), name) {
            return Some(i);
        }
        i = i + 1;
    }
    None
}

/// The device configuration: where it is and who asks.
#[derive(Debug, Clone, PartialEq, Eq)]
pub struct Shelly {
    /// The address of the device.
    pub host: String,
    /// The user name for Digest authentication.
    pub username: String,
    /// The password for Digest authentication.
    pub password: String,
}

/// The URL of an RPC endpoint on a host.
pub open spec fn rpc_url(host: Seq<char>, uri: Seq<char>) -> Seq<char> {
    "http://"@ + host + uri
}

/// The body that names a script to create, around the name as a JSON
/// string literal.
pub open spec fn name_body(quoted_name: Seq<char>) -> Seq<char> {
    "{\"name\":"@ + quoted_name + "}"@
}

/// The body that names a script to create.
pub open spec fn create_body(name: Seq<char>) -> Seq<char> {
    name_body(json_quoted(name))
}

/// The body that names a script by its id.
pub open spec fn id_body(id: int) -> Seq<char> {
    "{\"id\":"@ + decimal(id) + "}"@
}

/// The JSON literal of a truth value.
pub open spec fn bool_text(b: bool) -> Seq<char> {
    if b {
        "true"@
    } else {
        "false"@
    }
}

/// The body that uploads code to a script, around the code as a JSON
/// string literal.
pub open spec fn code_body(id: int, quoted_code: Seq<char>, append: bool) -> Seq<char> {
    "{\"id\":"@ + decimal(id) + ",\"code\":"@ + quoted_code + ",\"append\":"@ + bool_text(append)
        + "}"@
}

/// The body that uploads code to a script.
pub open spec fn put_code_body(id: int, code: Seq<char>, append: bool) -> Seq<char> {
    code_body(id, json_quoted(code), append)
}

/// A POST to an endpoint of a device, signed for its user.
pub open spec fn post_to(shelly: Shelly, uri: Seq<char>, body: Seq<char>) -> RequestView {
    RequestView {
        method: Method::Post,
        url: rpc_url(shelly.host@, uri),
        body: Some(body),
        username: shelly.username@,
        password: shelly.password@,
    }
}

/// The request that lists the scripts of a device.
pub open spec fn list_request(shelly: Shelly) -> RequestView {
    RequestView {
        method: Method::Get,
        url: rpc_url(shelly.host@, "/rpc/Script.List"@),
        body: None,
        username: shelly.username@,
        password: shelly.password@,
    }
}

/// The request that creates a script.
pub open spec fn create_request(shelly: Shelly, name: Seq<char>) -> RequestView {
    post_to(shelly, "/rpc/Script.Create"@, create_body(name))
}

/// The request that uploads code.
pub open spec fn put_code_request(
    shelly: Shelly,
    id: int,
    code: Seq<char>,
    append: bool,
) -> RequestView {
    post_to(shelly, "/rpc/Script.PutCode"@, put_code_body(id, code, append))
}

/// The request that starts a script.
pub open spec fn start_request(shelly: Shelly, id: int) -> RequestView {
    post_to(shelly, "/rpc/Script.Start"@, id_body(id))
}

/// The request that stops a script.
pub open spec fn stop_request(shelly: Shelly, id: int) -> RequestView {
    post_to(shelly, "/rpc/Script.Stop"@, id_body(id))
}

/// Every request of a device is signed for the configured user, whatever
/// the operation.
pub proof fn lemma_requests_are_signed(
    shelly: Shelly,
    name: Seq<char>,
    id: int,
    code: Seq<char>,
    append: bool,
    request: RequestView,
)
    requires
        request == list_request(shelly) || request == create_request(shelly, name) || request
            == put_code_request(shelly, id, code, append) || request == start_request(shelly, id)
            || request == stop_request(shelly, id),
    ensures
        request.username == shelly.username@,
        request.password == shelly.password@,
{
}

/// Whether starting a script takes a request: not when it is known to run
/// and running scripts are not to be restarted.
pub open spec fn start_needed(running: Option<bool>, autorun: bool) -> bool {
    !(running == Some(true) && !autorun)
}

/// Whether stopping a script takes a request: not when it is known to be
/// idle.
pub open spec fn stop_needed(running: Option<bool>) -> bool {
    running != Some(false)
}

/// A start takes no request exactly where the script is known to run and
/// running scripts are not restarted; in every other case it takes one.
pub proof fn lemma_start_policy(running: Option<bool>, autorun: bool)
    ensures
        !start_needed(running, autorun) <==> running == Some(true) && !autorun,
        start_needed(Some(true), true),
        start_needed(Some(false), autorun),
        start_needed(None, autorun),
{
}

/// A stop takes no request exactly where the script is known to be idle; a
/// running script and one of unknown state take one.
pub proof fn lemma_stop_policy(running: Option<bool>)
    ensures
        !stop_needed(running) <==> running == Some(false),
        stop_needed(Some(true)),
        stop_needed(None),
{
}

/// What the status of an exchange says, before anyone looks at the body:
/// the error, or the body of an answer that is neither 4xx nor 5xx.
pub open spec fn status_outcome(exchange: Exchange) -> Result<Option<String>, DeviceError> {
    match exchange {
        Exchange::Failed => Err(DeviceError::TransportFailure),
        Exchange::Answered { status, body } => {
            if 400 <= status < 500 {
                Err(DeviceError::ClientRequestFailure { code: status })
            } else if 500 <= status < 600 {
                Err(DeviceError::ServerFailure { code: status, body })
            } else {
                Ok(body)
            }
        },
    }
}

/// The outcome of an operation whose answer carries nothing to read.
pub open spec fn plain_outcome(exchange: Exchange) -> Result<(), DeviceError> {
    match status_outcome(exchange) {
        Ok(_) => Ok(()),
        Err(e) => Err(e),
    }
}

/// The document of an answer, where the status lets it through, the body
/// could be read and is JSON.
pub open spec fn document_outcome(exchange: Exchange) -> Result<Json, DeviceError> {
    match status_outcome(exchange) {
        Err(e) => Err(e),
        Ok(None) => Err(DeviceError::TransportFailure),
        Ok(Some(text)) => match json_document(text@) {
            Some(doc) => Ok(doc),
            None => Err(DeviceError::ParseFailure),
        },
    }
}

/// A flag of a script: absent or null is unknown, a truth value is known,
/// anything else is no flag.
pub open spec fn flag_of(member: Option<Json>) -> Option<Option<bool>> {
    match member {
        None => Some(None),
        Some(Json::Null) => Some(None),
        Some(Json::Bool(b)) => Some(Some(b)),
        _ => None,
    }
}

/// Whether an integer is a script id.
pub open spec fn is_script_id(i: i64) -> bool {
    i32::MIN <= i <= i32::MAX
}

/// The script that a JSON value describes: an object with an integer `id`,
/// a string `name` and the flags `enable` and `running`.
pub open spec fn script_of(item: Json) -> Option<Script> {
    match (item.member("id"@), item.member("name"@)) {
        (Some(Json::Int(id)), Some(Json::Str(name))) => {
            let enable = flag_of(item.member("enable"@));
            let running = flag_of(item.member("running"@));
            if is_script_id(id) && enable is Some && running is Some {
                Some(
                    Script {
                        id: id as i32,
                        name,
                        enable: enable.unwrap(),
                        running: running.unwrap(),
                    },
                )
            } else {
                None
            }
        },
        _ => None,
    }
}

/// Whether every item describes a script.
pub open spec fn all_scripts(items: Seq<Json>) -> bool {
    forall|i: int| 0 <= i < items.len() ==> (#[trigger] script_of(items[i])) is Some
}

/// The scripts that a sequence of items describes, in order.
pub open spec fn scripts_of(items: Seq<Json>) -> Seq<Script> {
    Seq::new(items.len(), |i: int| script_of(items[i]).unwrap())
}

/// The script list of a document: its `scripts` array, where every item
/// describes a script.
pub open spec fn script_list_of(doc: Json) -> Option<Seq<Script>> {
    match doc.member("scripts"@) {
        Some(Json::Array(items)) => if all_scripts(items@) {
            Some(scripts_of(items@))
        } else {
            None
        },
        _ => None,
    }
}

/// The id that a document assigns: its integer `id`.
pub open spec fn created_id_of(doc: Json) -> Option<i32> {
    match doc.member("id"@) {
        Some(Json::Int(id)) => if is_script_id(id) {
            Some(id as i32)
        } else {
            None
        },
        _ => None,
    }
}

/// The outcome of listing the scripts.
pub open spec fn list_outcome(exchange: Exchange) -> Result<Seq<Script>, DeviceError> {
    match document_outcome(exchange) {
        Err(e) => Err(e),
        Ok(doc) => match script_list_of(doc) {
            Some(scripts) => Ok(scripts),
            None => Err(DeviceError::ParseFailure),
        },
    }
}

/// The outcome of creating a script under `name`: the id is the device's,
/// the name is the one asked for, and both flags are unknown.
pub open spec fn create_outcome(name: String, exchange: Exchange) -> Result<Script, DeviceError> {
    match document_outcome(exchange) {
        Err(e) => Err(e),
        Ok(doc) => match created_id_of(doc) {
            Some(id) => Ok(Script { id, name, enable: None, running: None }),
            None => Err(DeviceError::ParseFailure),
        },
    }
}

/// The mathematical content of a list result.
pub open spec fn list_model(r: Result<Vec<Script>, DeviceError>) -> Result<
    Seq<Script>,
    DeviceError,
> {
    match r {
        Ok(scripts) => Ok(scripts@),
        Err(e) => Err(e),
    }
}

/// Classifies the status of an exchange before the body is touched.
pub fn check_status(exchange: Exchange) -> (r: Result<Option<String>, DeviceError>)
    ensures
        r == status_outcome(exchange),
{
    match exchange {
        Exchange::Failed => Err(DeviceError::TransportFailure),
        Exchange::Answered { status, body } => {
            if 400 <= status && status < 500 {
                Err(DeviceError::ClientRequestFailure { code: status })
            } else if 500 <= status && status < 600 {
                Err(DeviceError::ServerFailure { code: status, body })
            } else {
                Ok(body)
            }
        },
    }
}

/// Reads the JSON document of an answer.
pub fn read_document(exchange: Exchange) -> (r: Result<Json, DeviceError>)
    ensures
        r == document_outcome(exchange),
{
    match check_status(exchange) {
        Err(e) => Err(e),
        Ok(None) => Err(DeviceError::TransportFailure),
        Ok(Some(text)) => match parse_json(text.as_str()) {
            Some(doc) => Ok(doc),
            None => Err(DeviceError::ParseFailure),
        },
    }
}

/// Reads a flag of a script.
pub fn read_flag(member: Option<&Json>) -> (r: Option<Option<bool>>)
    ensures
        r == flag_of(
            match member {
                Some(j) => Some(*j),
                None => None,
            },
        ),
{
    match member {
        None => Some(None),
        Some(Json::Null) => Some(None),
        Some(Json::Bool(b)) => Some(Some(*b)),
        _ => None,
    }
}

/// Reads one script description.
pub fn read_script(item: &Json) -> (r: Option<Script>)
    ensures
        r == script_of(*item),
{
    match (item.get("id"), item.get("name")) {
        (Some(Json::Int(id)), Some(Json::Str(name))) => {
            let enable = read_flag(item.get("enable"));
            let running = read_flag(item.get("running"));
            if *id < -2147483648 || *id > 2147483647 {
                return None;
            }
            match (enable, running) {
                (Some(enable), Some(running)) => Some(
                    Script { id: *id as i32, name: name.clone(), enable, running },
                ),
                _ => None,
            }
        },
        _ => None,
    }
}

/// Reads a sequence of script descriptions; one that describes no script
/// spoils the whole.
pub fn read_scripts(items: &Vec<Json>) -> (r: Option<Vec<Script>>)
    ensures
        r is Some <==> all_scripts(items@),
        r matches Some(scripts) ==> scripts@ == scripts_of(items@),
{
    let mut scripts: Vec<Script> = Vec::new();
    let mut i: usize = 0;
    while i < items.len()
        invariant
            i <= items.len(),
            scripts@.len() == i,
            forall|k: int|
                0 <= k < i ==> (#[trigger] script_of(items@[k])) == Some(scripts@[k]),
        decreases items.len() - i,
    {
        match read_script(&items[i]) {
            Some(script) => {
                scripts.push(script);
            },
            None => {
                assert(script_of(items@[i as int]) is None);
                return None;
            },
        }
        i = i + 1;
    }
    assert(scripts@ =~= scripts_of(items@));
    Some(scripts)
}

/// Reads the script list of a document.
pub fn read_script_list(doc: &Json) -> (r: Option<Vec<Script>>)
    ensures
        r is Some <==> script_list_of(*doc) is Some,
        r matches Some(scripts) ==> script_list_of(*doc) == Some(scripts@),
{
    match doc.get("scripts") {
        Some(Json::Array(items)) => read_scripts(items),
        _ => None,
    }
}

/// Reads the id that a document assigns.
pub fn read_created_id(doc: &Json) -> (r: Option<i32>)
    ensures
        r == created_id_of(*doc),
{
    match doc.get("id") {
        Some(Json::Int(id)) => {
            if *id < -2147483648 || *id > 2147483647 {
                None
            } else {
                Some(*id as i32)
            }
        },
        _ => None,
    }
}

fn bool_str(b: bool) -> (r: &'static str)
    ensures
        r@ == bool_text(b),
{
    if b {
        "true"
    } else {
        "false"
    }
}

/// Frames the body of a create request around the name, given as a JSON
/// string literal.
pub fn frame_name_body(quoted_name: &str) -> (r: String)
    ensures
        r@ == name_body(quoted_name@),
{
    let mut body = String::from_str("{\"name\":");
    body.append(quoted_name);
    body.append("}");
    body
}

/// Frames the body that names a script by its id.
pub fn frame_id_body(id: i32) -> (r: String)
    ensures
        r@ == id_body(id as int),
{
    let mut body = String::from_str("{\"id\":");
    body.append(int_to_string(id as i64).as_str());
    body.append("}");
    body
}

/// Frames the body of a put-code request around the code, given as a JSON
/// string literal.
pub fn frame_code_body(id: i32, quoted_code: &str, append: bool) -> (r: String)
    ensures
        r@ == code_body(id as int, quoted_code@, append),
{
    let mut body = String::from_str("{\"id\":");
    body.append(int_to_string(id as i64).as_str());
    body.append(",\"code\":");
    body.append(quoted_code);
    body.append(",\"append\":");
    body.append(bool_str(append));
    body.append("}");
    body
}

impl Shelly {
    /// The client for the device at `host`, with the credentials to sign
    /// requests with.
    pub fn new(host: String, username: String, password: String) -> (r: Shelly)
        ensures
            r.host == host,
            r.username == username,
            r.password == password,
    {
        Shelly { host, username, password }
    }

    /// The URL of an endpoint of the device.
    pub fn get_url(&self, uri: &str) -> (r: String)
        ensures
            r@ == rpc_url(self.host@, uri@),
    {
        let mut url = String::from_str("http://");
        url.append(self.host.as_str());
        url.append(uri);
        url
    }

    fn post(&self, uri: &str, body: String) -> (r: Request)
        ensures
            r@ == post_to(*self, uri@, body@),
    {
        Request {
            method: Method::Post,
            url: self.get_url(uri),
            body: Some(body),
            username: self.username.clone(),
            password: self.password.clone(),
        }
    }

    fn id_request(&self, uri: &str, id: i32) -> (r: Request)
        ensures
            r@ == post_to(*self, uri@, id_body(id as int)),
    {
        self.post(uri, frame_id_body(id))
    }

    /// The request that lists the scripts of the device.
    pub fn script_list(&self) -> (r: Request)
        ensures
            r@ == list_request(*self),
    {
        Request {
            method: Method::Get,
            url: self.get_url("/rpc/Script.List"),
            body: None,
            username: self.username.clone(),
            password: self.password.clone(),
        }
    }

    /// What the answer to a list request holds: the scripts of the
    /// `scripts` array, or the error that the status or the body gives.
    pub fn script_list_reply(exchange: Exchange) -> (r: Result<Vec<Script>, DeviceError>)
        ensures
            list_model(r) == list_outcome(exchange),
    {
        match read_document(exchange) {
            Err(e) => Err(e),
            Ok(doc) => match read_script_list(&doc) {
                Some(scripts) => Ok(scripts),
                None => Err(DeviceError::ParseFailure),
            },
        }
    }

    /// The request that creates a script under a name.
    pub fn script_create(&self, script_name: &str) -> (r: Request)
        ensures
            r@ == create_request(*self, script_name@),
    {
        let quoted = quote(script_name);
        self.post("/rpc/Script.Create", frame_name_body(quoted.as_str()))
    }

    /// What the answer to a create request holds: the new script, with the
    /// id that the device assigned and the name that was asked for.
    pub fn script_create_reply(script_name: String, exchange: Exchange) -> (r: Result<
        Script,
        DeviceError,
    >)
        ensures
            r == create_outcome(script_name, exchange),
    {
        match read_document(exchange) {
            Err(e) => Err(e),
            Ok(doc) => match read_created_id(&doc) {
                Some(id) => Ok(Script { id, name: script_name, enable: None, running: None }),
                None => Err(DeviceError::ParseFailure),
            },
        }
    }

    /// The request that uploads `data` as the code of a script, replacing
    /// what the script holds or, with `append`, following it.
    pub fn script_put_code(&self, script: &Script, data: &str, append: bool) -> (r: Request)
        ensures
            r@ == put_code_request(*self, script.id as int, data@, append),
    {
        let quoted = quote(data);
        self.post("/rpc/Script.PutCode", frame_code_body(script.id, quoted.as_str(), append))
    }

    /// The request that starts a script, or `None` where the script is
    /// known to run and `autorun` is off: then nothing is sent.
    pub fn script_start(&self, script: &Script, autorun: bool) -> (r: Option<Request>)
        ensures
            r is Some <==> start_needed(script.running, autorun),
            r matches Some(request) ==> request@ == start_request(*self, script.id as int),
    {
        match script.running {
            Some(true) => {
                if !autorun {
                    return None;
                }
            },
            _ => {},
        }
        Some(self.id_request("/rpc/Script.Start", script.id))
    }

    /// The request that stops a script, or `None` where the script is known
    /// to be idle: then nothing is sent.
    pub fn script_stop(&self, script: &Script) -> (r: Option<Request>)
        ensures
            r is Some <==> stop_needed(script.running),
            r matches Some(request) ==> request@ == stop_request(*self, script.id as int),
    {
        match script.running {
            Some(false) => None,
            _ => Some(self.id_request("/rpc/Script.Stop", script.id)),
        }
    }

    /// What the answer to a put-code, start or stop request means. The body
    /// of a good answer is not looked at.
    pub fn plain_reply(exchange: Exchange) -> (r: Result<(), DeviceError>)
        ensures
            r == plain_outcome(exchange),
    {
        match check_status(exchange) {
            Ok(_) => Ok(()),
            Err(e) => Err(e),
        }
    }
}

/// The text that tells a user of a 4xx answer.
pub open spec fn client_failure_text(code: u16) -> Seq<char> {
    "Something goes wrong when trying to do the request to the shelly -> response code "@
        + decimal(code as int)
}

/// The text that tells a user of a 5xx answer.
pub open spec fn server_failure_text(code: u16, body: Option<String>) -> Seq<char> {
    let head = "There is something wrong going on with the shelly -> response code "@ + decimal(
        code as int,
    );
    match body {
        Some(text) => head + "\nError message -> "@ + text@,
        None => head,
    }
}

impl DeviceError {
    /// The text that tells a user of this error.
    pub open spec fn message_text(self) -> Seq<char> {
        match self {
            DeviceError::ClientRequestFailure { code } => client_failure_text(code),
            DeviceError::ServerFailure { code, body } => server_failure_text(code, body),
            DeviceError::ParseFailure => "Unable to parse correctly the list of scripts from the Shelly"@,
            DeviceError::TransportFailure => "Unable to reach the Shelly"@,
            DeviceError::LocalIOFailure => "Unable to read the local file"@,
        }
    }

    /// Renders this error for a user.
    pub fn message(&self) -> (r: String)
        ensures
            r@ == self.message_text(),
    {
        match self {
            DeviceError::ClientRequestFailure { code } => {
                let mut text = String::from_str(
                    "Something goes wrong when trying to do the request to the shelly -> response code ",
                );
                text.append(int_to_string(*code as i64).as_str());
                text
            },
            DeviceError::ServerFailure { code, body } => {
                let mut text = String::from_str(
                    "There is something wrong going on with the shelly -> response code ",
                );
                text.append(int_to_string(*code as i64).as_str());
                match body {
                    Some(detail) => {
                        text.append("\nError message -> ");
                        text.append(detail.as_str());
                    },
                    None => {},
                }
                text
            },
            DeviceError::ParseFailure => String::from_str(
                "Unable to parse correctly the list of scripts from the Shelly",
            ),
            DeviceError::TransportFailure => String::from_str("Unable to reach the Shelly"),
            DeviceError::LocalIOFailure => String::from_str("Unable to read the local file"),
        }
    }
}

} // verus!
