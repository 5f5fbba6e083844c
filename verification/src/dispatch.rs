//! The per-request dispatcher's decisions.
//!
//! For each tool call the dispatcher builds a task with a fresh id, submits
//! it to the state manager and awaits the correlated result under the hard
//! execution deadline.  What happens around that wait is asynchronous; what
//! is decided from each awaited outcome is the pure function
//! [`conclude_dispatch`] below.

use vstd::prelude::*;
use vstd::string::StringExecFns;

use crate::tool_result::ToolResult;
use crate::TOOL_EXECUTION_TIMEOUT_SECS;

verus! {

/// The text of one decimal digit.
pub open spec fn digit_str(d: nat) -> Seq<char> {
    if d == 0 {
        "0"@
    } else if d == 1 {
        "1"@
    } else if d == 2 {
        "2"@
    } else if d == 3 {
        "3"@
    } else if d == 4 {
        "4"@
    } else if d == 5 {
        "5"@
    } else if d == 6 {
        "6"@
    } else if d == 7 {
        "7"@
    } else if d == 8 {
        "8"@
    } else {
        "9"@
    }
}

/// The usual decimal rendering of a natural number, most significant digit
/// first and without leading zeroes.
pub open spec fn dec_digits(n: nat) -> Seq<char>
    decreases n,
{
    if n < 10 {
        digit_str(n)
    } else {
        dec_digits(n / 10) + digit_str(n % 10)
    }
}

fn push_digit(s: &mut String, d: u64)
    requires
        d < 10,
    ensures
        final(s)@ == old(s)@ + digit_str(d as nat),
{
    if d == 0 {
        s.append("0");
    } else if d == 1 {
        s.append("1");
    } else if d == 2 {
        s.append("2");
    } else if d == 3 {
        s.append("3");
    } else if d == 4 {
        s.append("4");
    } else if d == 5 {
        s.append("5");
    } else if d == 6 {
        s.append("6");
    } else if d == 7 {
        s.append("7");
    } else if d == 8 {
        s.append("8");
    } else {
        s.append("9");
    }
}

/// Renders a number in decimal, as the timeout error message needs it.
pub fn u64_to_decimal_string(n: u64) -> (r: String)
    ensures
        r@ == dec_digits(n as nat),
    decreases n,
{
    if n < 10 {
        let mut s = String::new();
        push_digit(&mut s, n);
        s
    } else {
        assert(n / 10 < n);
        let mut s = u64_to_decimal_string(n / 10);
        push_digit(&mut s, n % 10);
        s
    }
}

/// An internal broker error surfaced to the MCP client.
#[derive(Clone, Debug, PartialEq, Eq)]
pub struct BrokerError {
    pub message: String,
}

/// The message when the state manager's command channel refuses a send.
pub open spec fn broker_unavailable_message() -> Seq<char> {
    "StateManager unavailable."@
}

/// The message when a dispatcher's result channel closed without a value.
pub open spec fn channel_dropped_message() -> Seq<char> {
    "Oneshot channel dropped."@
}

/// The message when the execution deadline elapsed, naming the deadline.
pub open spec fn timeout_message() -> Seq<char> {
    "Tool execution timed out after "@ + dec_digits(TOOL_EXECUTION_TIMEOUT_SECS as nat) + "s."@
}

impl BrokerError {
    /// The error returned when the command channel send fails.
    pub fn broker_unavailable() -> (e: BrokerError)
        ensures
            e.message@ == broker_unavailable_message(),
    {
        BrokerError { message: ("StateManager unavailable.").to_owned() }
    }
}

/// What the dispatcher observed while awaiting its result channel.
#[derive(Clone, Debug, PartialEq, Eq)]
pub enum AwaitOutcome {
    /// The correlated result arrived in time.
    Received { result: ToolResult },
    /// The channel closed before any value arrived.
    ChannelClosed,
    /// The execution deadline elapsed first.
    TimedOut,
}

/// What the dispatcher does next.
#[derive(Clone, Debug, PartialEq, Eq)]
pub enum DispatchConclusion {
    /// Return the received result verbatim to the MCP facade.
    Done { result: ToolResult },
    /// Surface an internal error to the caller.
    Failed { error: BrokerError },
    /// Ask the state manager to drop the pending entry, then surface the
    /// timeout error to the caller.
    TimedOutCleanup { task_id: u128, error: BrokerError },
}

/// Decides the dispatcher's conclusion from the awaited outcome: a received
/// result is returned verbatim, a closed channel is an internal error, and
/// an elapsed deadline asks for cleanup of exactly the awaited task.
pub fn conclude_dispatch(task_id: u128, outcome: AwaitOutcome) -> (c: DispatchConclusion)
    ensures
        outcome matches AwaitOutcome::Received { result } ==> c == (DispatchConclusion::Done {
            result,
        }),
        outcome is ChannelClosed ==> ({
            &&& c matches DispatchConclusion::Failed { error }
            &&& error.message@ == channel_dropped_message()
        }),
        outcome is TimedOut ==> ({
            &&& c matches DispatchConclusion::TimedOutCleanup { task_id: cleanup_id, error }
            &&& cleanup_id == task_id
            &&& error.message@ == timeout_message()
        }),
{
    match outcome {
        AwaitOutcome::Received { result } => DispatchConclusion::Done { result },
        AwaitOutcome::ChannelClosed => DispatchConclusion::Failed {
            error: BrokerError { message: ("Oneshot channel dropped.").to_owned() },
        },
        AwaitOutcome::TimedOut => {
            let mut message = ("Tool execution timed out after ").to_owned();
            let secs = u64_to_decimal_string(TOOL_EXECUTION_TIMEOUT_SECS);
            message.append(secs.as_str());
            message.append("s.");
            DispatchConclusion::TimedOutCleanup {
                task_id,
                error: BrokerError { message },
            }
        },
    }
}

} // verus!
