//! Decisions of the plugin-facing HTTP endpoint.
//!
//! One route serves both plugin operations: a request without the task-id
//! header polls for the next task, one with the header submits a result.
//! The handlers here classify a request and choose the response; holding
//! the poll open and moving bytes is the runtime's part.

use vstd::prelude::*;

use crate::task_id::parse_task_id;
use crate::task_id::uuid_parse;
use crate::tool_args::luau_task_view;
use crate::tool_args::ToolArguments;
use crate::tool_result::ToolResult;

verus! {

/// Everything the plugin can be answered with.
#[derive(Clone, Debug, PartialEq, Eq)]
pub enum PluginHttpResponse {
    /// `200 OK` carrying the task in its Luau wire form.
    TaskBody { body: String },
    /// `204 No Content`: nothing to hand out, or a submission accepted.
    NoContent,
    /// `400 Bad Request` with a short reason.
    BadRequest { message: String },
    /// `500 Internal Server Error`: the broker's command channel is gone.
    BrokerGone,
}

impl PluginHttpResponse {
    /// The HTTP status code of this response.
    pub fn status_code(&self) -> (code: u16)
        ensures
            self is TaskBody ==> code == 200,
            self is NoContent ==> code == 204,
            self is BadRequest ==> code == 400,
            self is BrokerGone ==> code == 500,
    {
        match self {
            PluginHttpResponse::TaskBody { .. } => 200,
            PluginHttpResponse::NoContent => 204,
            PluginHttpResponse::BadRequest { .. } => 400,
            PluginHttpResponse::BrokerGone => 500,
        }
    }
}

/// The content type a task body is served under.
pub fn luau_content_type() -> (r: &'static str)
    ensures
        r@ == "application/luau"@,
{
    "application/luau"
}

/// What a submit request asks the broker to do.
#[derive(Clone, Debug, PartialEq, Eq)]
pub enum SubmitDecision {
    /// Answer the plugin directly, without touching the broker.
    Reject { response: PluginHttpResponse },
    /// Forward the result to the state manager under the id it names.
    Forward { task_id: u128, result: ToolResult },
}

/// Classifies a submit request (header present) from its raw header value
/// and the parse of its body: an unparseable id or body is rejected with
/// `400`, everything else is forwarded verbatim under the parsed id.
pub fn classify_submit(header_value: &str, body: Option<ToolResult>) -> (d: SubmitDecision)
    ensures
        uuid_parse(header_value@) is None ==> ({
            &&& d matches SubmitDecision::Reject { response }
            &&& response matches PluginHttpResponse::BadRequest { message }
            &&& message@ == "Invalid X-MCP-Task-ID header"@
        }),
        uuid_parse(header_value@) is Some && body is None ==> ({
            &&& d matches SubmitDecision::Reject { response }
            &&& response matches PluginHttpResponse::BadRequest { message }
            &&& message@ == "Invalid result JSON"@
        }),
        uuid_parse(header_value@) is Some && body is Some ==> d == (SubmitDecision::Forward {
            task_id: uuid_parse(header_value@)->0,
            result: body->0,
        }),
{
    match parse_task_id(header_value) {
        Some(task_id) => {
            match body {
                Some(result) => SubmitDecision::Forward { task_id, result },
                None => SubmitDecision::Reject {
                    response: PluginHttpResponse::BadRequest {
                        message: ("Invalid result JSON").to_owned(),
                    },
                },
            }
        },
        None => SubmitDecision::Reject {
            response: PluginHttpResponse::BadRequest {
                message: ("Invalid X-MCP-Task-ID header").to_owned(),
            },
        },
    }
}

/// The submit path's answer once its command was handed to the broker:
/// an accepted submission is `204 No Content` — deliberately empty, so the
/// plugin does not mistake the reply for another task — and a refused send
/// means the broker is gone.
pub fn submit_response(sent: bool) -> (r: PluginHttpResponse)
    ensures
        sent ==> r is NoContent,
        !sent ==> r is BrokerGone,
{
    if sent {
        PluginHttpResponse::NoContent
    } else {
        PluginHttpResponse::BrokerGone
    }
}

/// What the poll path observed while awaiting the state manager's reply.
#[derive(Clone, Debug, PartialEq, Eq)]
pub enum PollAwaitOutcome {
    /// A task to hand to the plugin.
    Task { task: ToolArguments },
    /// An explicit `None`: polled during shutdown.
    NoTask,
    /// The reply channel hung up (this poller was superseded, or the
    /// broker shut down).
    ChannelClosed,
    /// The long-poll duration elapsed first.
    TimedOut,
}

/// The poll path's answer: a task is served as its Luau wire form under
/// `200`, and every other outcome is `204 No Content` — the plugin simply
/// re-polls.
pub fn poll_response(outcome: PollAwaitOutcome) -> (r: PluginHttpResponse)
    ensures
        outcome matches PollAwaitOutcome::Task { task } ==> ({
            &&& r matches PluginHttpResponse::TaskBody { body }
            &&& body@ == luau_task_view(task)
        }),
        !(outcome is Task) ==> r is NoContent,
{
    match outcome {
        PollAwaitOutcome::Task { task } => PluginHttpResponse::TaskBody {
            body: task.to_luau_string(),
        },
        _ => PluginHttpResponse::NoContent,
    }
}

} // verus!
