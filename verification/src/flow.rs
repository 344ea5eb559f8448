//! The task-polling state machine.
//!
//! Submitting a compile request yields a task; the client then re-fetches
//! the task until its phase is terminal, and resolves the flow by fetching
//! either the artifact (on `Succeeded`) or the log text (on `Failed`).  The
//! machine below is that protocol with the I/O factored out: `flow_request`
//! says which HTTP call the current state needs, the shell performs it and
//! classifies the reply, and `flow_advance` moves to the next state.  Only
//! the phase the server reports drives the transitions; the client never
//! infers completion from elapsed time or progress.

use vstd::prelude::*;

use crate::compile::CompileTask;
use crate::compile::CompileTaskPhase;
use crate::ClientError;

verus! {

/// The structured error body the server sends with a non-2xx status.
pub struct ApiResponse {
    pub error_code: String,
    pub message: String,
    pub trace_id: Option<String>,
}

/// How the error body of a non-2xx reply parsed.
pub enum ErrorBodyOutcome {
    /// The body was the documented error object.
    Parsed(ApiResponse),
    /// The body did not parse; the parser's message.
    Unparsable(String),
}

/// One HTTP exchange as the decoder sees it.  The shell has already
/// classified the status with `is_success_status` and parsed the body:
/// a 2xx body into the payload, a non-2xx body into the error object.
pub enum Reply<T> {
    /// The request itself failed; the transport's message.
    Transport(String),
    /// The status was 2xx but the body could not be read; the message.
    BodyUnreadable(String),
    /// A 2xx reply with its decoded payload.
    Payload(T),
    /// A non-2xx reply with its (attempted) structured error body.
    Api(ErrorBodyOutcome),
}

/// Whether an HTTP status code counts as success: exactly the 2xx range.
pub fn is_success_status(status: u16) -> (r: bool)
    ensures
        r == (200 <= status < 300),
{
    200 <= status && status < 300
}

/// The `ApiError` text for a failed exchange against `path`, one phrasing
/// per way the exchange can fail.
pub open spec fn response_failure_text<T>(path: Seq<char>, reply: Reply<T>) -> Seq<char> {
    match reply {
        Reply::Transport(e) => e@,
        Reply::BodyUnreadable(e) => "fail to deserialize the bytes: "@ + e@,
        Reply::Api(ErrorBodyOutcome::Parsed(a)) => "fail to call API "@ + path + ": "@
            + a.message@,
        Reply::Api(ErrorBodyOutcome::Unparsable(e)) =>
            "fail to deserialize the error response from "@ + path + ": "@ + e@,
        Reply::Payload(_) => Seq::empty(),
    }
}

/// Decodes one exchange of the compile flow: a 2xx payload is the result,
/// everything else is an `ApiError` whose text names what went wrong.
pub fn make_response<T>(path: &str, reply: Reply<T>) -> (r: Result<T, ClientError>)
    ensures
        (reply matches Reply::Payload(v) ==> (r matches Ok(w) && w == v)),
        (!(reply is Payload) ==> (r matches Err(e) && e matches ClientError::ApiError(m) && m@
            == response_failure_text(path@, reply))),
{
    match reply {
        Reply::Payload(v) => Ok(v),
        Reply::Transport(e) => Err(ClientError::ApiError(e)),
        Reply::BodyUnreadable(e) => {
            let mut m = "fail to deserialize the bytes: ".to_owned();
            m.append(e.as_str());
            Err(ClientError::ApiError(m))
        },
        Reply::Api(ErrorBodyOutcome::Parsed(a)) => {
            let mut m = "fail to call API ".to_owned();
            m.append(path);
            m.append(": ");
            m.append(a.message.as_str());
            Err(ClientError::ApiError(m))
        },
        Reply::Api(ErrorBodyOutcome::Unparsable(e)) => {
            let mut m = "fail to deserialize the error response from ".to_owned();
            m.append(path);
            m.append(": ");
            m.append(e.as_str());
            Err(ClientError::ApiError(m))
        },
    }
}

/// The `ApiError` text for a failed single-shot exchange (optimize,
/// calibrate, quantize), whose phrasing names the artifact being fetched.
pub open spec fn dss_failure_text(noun: Seq<char>, reply: Reply<Vec<u8>>) -> Seq<char> {
    match reply {
        Reply::Transport(e) => e@,
        Reply::BodyUnreadable(e) => "fail to fetch the "@ + noun + ": "@ + e@,
        Reply::Api(ErrorBodyOutcome::Parsed(a)) => "fail to compile: "@ + a.message@,
        Reply::Api(ErrorBodyOutcome::Unparsable(e)) => "fail to get API response: "@ + e@,
        Reply::Payload(_) => Seq::empty(),
    }
}

/// Decodes the reply of a single-shot endpoint: 2xx bytes are the result,
/// everything else is an `ApiError`; `noun` names the artifact in the
/// body-read failure text.
pub fn make_dss_response(noun: &str, reply: Reply<Vec<u8>>) -> (r: Result<Vec<u8>, ClientError>)
    ensures
        (reply matches Reply::Payload(b) ==> (r matches Ok(w) && w == b)),
        (!(reply is Payload) ==> (r matches Err(e) && e matches ClientError::ApiError(m) && m@
            == dss_failure_text(noun@, reply))),
{
    match reply {
        Reply::Payload(b) => Ok(b),
        Reply::Transport(e) => Err(ClientError::ApiError(e)),
        Reply::BodyUnreadable(e) => {
            let mut m = "fail to fetch the ".to_owned();
            m.append(noun);
            m.append(": ");
            m.append(e.as_str());
            Err(ClientError::ApiError(m))
        },
        Reply::Api(ErrorBodyOutcome::Parsed(a)) => {
            let mut m = "fail to compile: ".to_owned();
            m.append(a.message.as_str());
            Err(ClientError::ApiError(m))
        },
        Reply::Api(ErrorBodyOutcome::Unparsable(e)) => {
            let mut m = "fail to get API response: ".to_owned();
            m.append(e.as_str());
            Err(ClientError::ApiError(m))
        },
    }
}

/// What `String::from_utf8_lossy` returns: a pure function of the bytes.
pub uninterp spec fn lossy_utf8(bytes: Seq<u8>) -> Seq<char>;

/// Relies on String::from_utf8_lossy from std: the result depends on the
/// bytes alone, and valid UTF-8 decodes to exactly its characters (invalid
/// sequences are replaced, not rejected).
#[verifier::external_body]
fn utf8_lossy(bytes: &Vec<u8>) -> (r: String)
    ensures
        r@ == lossy_utf8(bytes@),
        vstd::utf8::valid_utf8(bytes@) ==> r@ == vstd::utf8::decode_utf8(bytes@),
{
    String::from_utf8_lossy(bytes).to_string()
}

/// The task-creation URL: `{endpoint}/api/compiler/v1alpha1/tasks`.
pub open spec fn submit_path_text(endpoint: Seq<char>) -> Seq<char> {
    endpoint + "/api/compiler/v1alpha1/tasks"@
}

/// The task-status URL: `{endpoint}/api/compiler/v1alpha1/tasks/{task_id}`.
pub open spec fn task_path_text(endpoint: Seq<char>, task_id: Seq<char>) -> Seq<char> {
    endpoint + "/api/compiler/v1alpha1/tasks/"@ + task_id
}

/// The artifact URL: the task URL followed by `/artifacts/output.enf`.
pub open spec fn artifact_path_text(endpoint: Seq<char>, task_id: Seq<char>) -> Seq<char> {
    task_path_text(endpoint, task_id) + "/artifacts/output.enf"@
}

/// The log URL: the task URL followed by `/logs`.
pub open spec fn logs_path_text(endpoint: Seq<char>, task_id: Seq<char>) -> Seq<char> {
    task_path_text(endpoint, task_id) + "/logs"@
}

/// Builds the task-creation URL.
pub fn submit_path(endpoint: &str) -> (r: String)
    ensures
        r@ == submit_path_text(endpoint@),
{
    let mut s = endpoint.to_owned();
    s.append("/api/compiler/v1alpha1/tasks");
    s
}

/// Builds the task-status URL.
pub fn task_path(endpoint: &str, task_id: &str) -> (r: String)
    ensures
        r@ == task_path_text(endpoint@, task_id@),
{
    let mut s = endpoint.to_owned();
    s.append("/api/compiler/v1alpha1/tasks/");
    s.append(task_id);
    s
}

/// Builds the artifact URL.
pub fn artifact_path(endpoint: &str, task_id: &str) -> (r: String)
    ensures
        r@ == artifact_path_text(endpoint@, task_id@),
{
    let mut s = task_path(endpoint, task_id);
    s.append("/artifacts/output.enf");
    s
}

/// Builds the log URL.
pub fn logs_path(endpoint: &str, task_id: &str) -> (r: String)
    ensures
        r@ == logs_path_text(endpoint@, task_id@),
{
    let mut s = task_path(endpoint, task_id);
    s.append("/logs");
    s
}

/// HTTP method of a planned call.
#[derive(Clone, Copy, Debug, PartialEq, Eq, Structural)]
pub enum HttpMethod {
    Get,
    Post,
}

/// The fixed inter-poll delay, in milliseconds.
pub const POLL_DELAY_MILLIS: u64 = 500;

/// One planned HTTP call: the method, the full URL, and how long the shell
/// must wait before issuing it.
pub struct HttpCall {
    pub method: HttpMethod,
    pub path: String,
    pub delay_millis: u64,
}

/// The states of the compile flow.
pub enum FlowState {
    /// The compile request is to be POSTed.
    Submit,
    /// A task is known and was last seen non-terminal; its status is to be
    /// fetched again after the inter-poll delay.
    Poll { task_id: String },
    /// The task succeeded; its artifact is to be fetched.
    FetchArtifact { task_id: String },
    /// The task failed; its log text is to be fetched.
    FetchLogs { task_id: String },
    /// The flow is over, successfully or not.
    Done { result: Result<Vec<u8>, ClientError> },
}

/// The reply to the outstanding call, as the shell hands it back.
pub enum FlowEvent {
    /// Reply to the submit POST or to a status GET, carrying a freshly
    /// decoded task on success.
    Task(Reply<CompileTask>),
    /// Reply to the artifact or log GET, carrying the raw body on success.
    Bytes(Reply<Vec<u8>>),
}

/// Which event shape each state expects: task replies while submitting or
/// polling, byte replies while resolving, nothing when done.
pub open spec fn expects(state: FlowState, event: FlowEvent) -> bool {
    match state {
        FlowState::Submit => event is Task,
        FlowState::Poll { .. } => event is Task,
        FlowState::FetchArtifact { .. } => event is Bytes,
        FlowState::FetchLogs { .. } => event is Bytes,
        FlowState::Done { .. } => false,
    }
}

/// The URL the machine is (or was last) talking to in a state.
pub open spec fn state_path_text(endpoint: Seq<char>, state: FlowState) -> Seq<char> {
    match state {
        FlowState::Submit => submit_path_text(endpoint),
        FlowState::Poll { task_id } => task_path_text(endpoint, task_id@),
        FlowState::FetchArtifact { task_id } => artifact_path_text(endpoint, task_id@),
        FlowState::FetchLogs { task_id } => logs_path_text(endpoint, task_id@),
        FlowState::Done { .. } => Seq::empty(),
    }
}

/// The successor state once a task is in hand: fetch the artifact on
/// `Succeeded`, the logs on `Failed`, and poll again otherwise.
pub open spec fn state_for_task(task_id: String, phase: CompileTaskPhase) -> FlowState {
    if phase is Succeeded {
        FlowState::FetchArtifact { task_id }
    } else if phase is Failed {
        FlowState::FetchLogs { task_id }
    } else {
        FlowState::Poll { task_id }
    }
}

/// Once a task reports a terminal phase the machine never polls again: the
/// successor fetches the artifact on success and the logs on failure, and
/// only a non-terminal phase leads back to polling.
pub proof fn lemma_terminal_phase_stops_polling(task_id: String, phase: CompileTaskPhase)
    ensures
        phase.spec_is_completed() ==> !(state_for_task(task_id, phase) is Poll),
        phase is Succeeded ==> state_for_task(task_id, phase) == (FlowState::FetchArtifact {
            task_id,
        }),
        phase is Failed ==> state_for_task(task_id, phase) == (FlowState::FetchLogs { task_id }),
        !phase.spec_is_completed() ==> state_for_task(task_id, phase) == (FlowState::Poll {
            task_id,
        }),
{
}

/// The entry state of the machine.
pub fn flow_start() -> (s: FlowState)
    ensures
        s is Submit,
{
    FlowState::Submit
}

/// The HTTP call the current state needs: the submit POST, a delayed status
/// GET while polling, the artifact or log GET when resolving, and nothing
/// once done.
pub fn flow_request(endpoint: &str, state: &FlowState) -> (r: Option<HttpCall>)
    ensures
        (state is Submit ==> (r matches Some(c) && c.method is Post && c.path@
            == submit_path_text(endpoint@) && c.delay_millis == 0)),
        (state matches FlowState::Poll { task_id } ==> (r matches Some(c) && c.method is Get
            && c.path@ == task_path_text(endpoint@, task_id@) && c.delay_millis == 500)),
        (state matches FlowState::FetchArtifact { task_id } ==> (r matches Some(c) && c.method
            is Get && c.path@ == artifact_path_text(endpoint@, task_id@) && c.delay_millis == 0)),
        (state matches FlowState::FetchLogs { task_id } ==> (r matches Some(c) && c.method is Get
            && c.path@ == logs_path_text(endpoint@, task_id@) && c.delay_millis == 0)),
        (state is Done ==> r is None),
{
    match state {
        FlowState::Submit => Some(
            HttpCall { method: HttpMethod::Post, path: submit_path(endpoint), delay_millis: 0 },
        ),
        FlowState::Poll { task_id } => Some(
            HttpCall {
                method: HttpMethod::Get,
                path: task_path(endpoint, task_id.as_str()),
                delay_millis: POLL_DELAY_MILLIS,
            },
        ),
        FlowState::FetchArtifact { task_id } => Some(
            HttpCall {
                method: HttpMethod::Get,
                path: artifact_path(endpoint, task_id.as_str()),
                delay_millis: 0,
            },
        ),
        FlowState::FetchLogs { task_id } => Some(
            HttpCall {
                method: HttpMethod::Get,
                path: logs_path(endpoint, task_id.as_str()),
                delay_millis: 0,
            },
        ),
        FlowState::Done { .. } => None,
    }
}

/// Maps a task to the machine's next state by its phase alone.
fn state_after_task(task_id: String, phase: CompileTaskPhase) -> (next: FlowState)
    ensures
        next == state_for_task(task_id, phase),
{
    if phase == CompileTaskPhase::Succeeded {
        FlowState::FetchArtifact { task_id }
    } else if phase == CompileTaskPhase::Failed {
        FlowState::FetchLogs { task_id }
    } else {
        FlowState::Poll { task_id }
    }
}

/// Advances the machine by one exchange.
///
/// A failed exchange ends the flow with the decoder's error at once: a
/// non-2xx submit never yields a task id and never enters the poll loop.  A
/// fetched task moves by its phase alone; the task id is fixed at
/// submission and later task replies never change it.  A fetched artifact
/// ends the flow with its bytes; a fetched log ends it with a
/// `CompilationFailed` carrying the log text decoded as lossy UTF-8.
pub fn flow_advance(endpoint: &str, state: FlowState, event: FlowEvent) -> (next: FlowState)
    requires
        expects(state, event),
    ensures
        (event matches FlowEvent::Task(reply) ==> ((!(reply is Payload)) ==> (next
            matches FlowState::Done { result } && result matches Err(e) && e
            matches ClientError::ApiError(m) && m@ == response_failure_text(
            state_path_text(endpoint@, state),
            reply,
        )))),
        (event matches FlowEvent::Bytes(reply) ==> ((!(reply is Payload)) ==> (next
            matches FlowState::Done { result } && result matches Err(e) && e
            matches ClientError::ApiError(m) && m@ == response_failure_text(
            state_path_text(endpoint@, state),
            reply,
        )))),
        (state is Submit ==> (event matches FlowEvent::Task(reply) ==> (reply
            matches Reply::Payload(t) ==> next == state_for_task(t.task_id, t.phase)))),
        (state matches FlowState::Poll { task_id } ==> (event matches FlowEvent::Task(reply) ==> (
        reply matches Reply::Payload(t) ==> next == state_for_task(task_id, t.phase)))),
        (state is FetchArtifact ==> (event matches FlowEvent::Bytes(reply) ==> (reply
            matches Reply::Payload(b) ==> next == (FlowState::Done { result: Ok(b) })))),
        (state is FetchLogs ==> (event matches FlowEvent::Bytes(reply) ==> (reply
            matches Reply::Payload(b) ==> (next matches FlowState::Done { result } && result
            matches Err(e) && e matches ClientError::CompilationFailed(m) && m@ == lossy_utf8(
            b@,
        ))))),
        (next is Poll ==> (event matches FlowEvent::Task(reply) && reply matches Reply::Payload(t)
            && !t.phase.spec_is_completed())),
        (next is FetchArtifact ==> (event matches FlowEvent::Task(reply) && reply
            matches Reply::Payload(t) && t.phase is Succeeded)),
        (next is FetchLogs ==> (event matches FlowEvent::Task(reply) && reply
            matches Reply::Payload(t) && t.phase is Failed)),
        (state is FetchArtifact || state is FetchLogs ==> next is Done),
{
    match state {
        FlowState::Submit => {
            let path = submit_path(endpoint);
            match event {
                FlowEvent::Task(reply) => match make_response(path.as_str(), reply) {
                    Ok(t) => state_after_task(t.task_id, t.phase),
                    Err(e) => FlowState::Done { result: Err(e) },
                },
                FlowEvent::Bytes(_) => unreached(),
            }
        },
        FlowState::Poll { task_id } => {
            let path = task_path(endpoint, task_id.as_str());
            match event {
                FlowEvent::Task(reply) => match make_response(path.as_str(), reply) {
                    Ok(t) => state_after_task(task_id, t.phase),
                    Err(e) => FlowState::Done { result: Err(e) },
                },
                FlowEvent::Bytes(_) => unreached(),
            }
        },
        FlowState::FetchArtifact { task_id } => {
            let path = artifact_path(endpoint, task_id.as_str());
            match event {
                FlowEvent::Bytes(reply) => match make_response(path.as_str(), reply) {
                    Ok(b) => FlowState::Done { result: Ok(b) },
                    Err(e) => FlowState::Done { result: Err(e) },
                },
                FlowEvent::Task(_) => unreached(),
            }
        },
        FlowState::FetchLogs { task_id } => {
            let path = logs_path(endpoint, task_id.as_str());
            match event {
                FlowEvent::Bytes(reply) => match make_response(path.as_str(), reply) {
                    Ok(b) => {
                        let log = utf8_lossy(&b);
                        FlowState::Done { result: Err(ClientError::CompilationFailed(log)) }
                    },
                    Err(e) => FlowState::Done { result: Err(e) },
                },
                FlowEvent::Task(_) => unreached(),
            }
        },
        FlowState::Done { .. } => unreached(),
    }
}

} // verus!
