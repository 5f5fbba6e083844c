//! A request/response broker between a stdio MCP client and a Roblox Studio
//! plugin that long-polls an HTTP endpoint for work.
//!
//! The heart of the crate is [`state_manager::StateManager`], the single owner
//! of the task queue, the pending-result table and the waiter slot.  Around it
//! stand the pure decision functions of the dispatcher
//! ([`dispatch`]), of the HTTP long-poll endpoint ([`http_gateway`]) and of
//! the MCP facade ([`server`]).  The asynchronous plumbing that feeds these
//! functions lives outside the library.

use vstd::prelude::*;

pub mod dispatch;
pub mod http_gateway;
pub mod install_messages;
pub mod registry;
pub mod server;
pub mod state_manager;
pub mod task_id;
pub mod tool_args;
pub mod tool_result;

verus! {

/// Loopback port on which the plugin-facing HTTP endpoint listens.
pub const STUDIO_PLUGIN_PORT: u16 = 44755;

/// Upper bound, in seconds, on how long one HTTP poll is held open.
pub const LONG_POLL_DURATION_SECS: u64 = 25;

/// Hard deadline, in seconds, for a dispatched tool call to produce a result.
pub const TOOL_EXECUTION_TIMEOUT_SECS: u64 = 30;

/// A poll is always released no later than the execution deadline of the
/// task it could have carried.
pub proof fn lemma_long_poll_within_tool_timeout()
    ensures
        LONG_POLL_DURATION_SECS <= TOOL_EXECUTION_TIMEOUT_SECS,
{
}

} // verus!
