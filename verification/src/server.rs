//! The MCP facade: translates the three advertised tools into dispatch
//! plans.
//!
//! `run_command` and `insert_model` always dispatch; the discovered-tool
//! call first checks the registry and answers an unknown name with a
//! tool-result error (a soft error visible to the client), never touching
//! the broker.

use vstd::prelude::*;
use vstd::string::StringExecFns;

use crate::registry::ToolRegistry;
use crate::tool_args::ToolArgumentValues;
use crate::tool_result::ContentItem;
use crate::tool_result::ToolResult;

verus! {

/// What a named tool call becomes.
#[derive(Clone, Debug, PartialEq, Eq)]
pub enum ToolCallPlan {
    /// Dispatch these argument values to the state manager and await.
    Dispatch { values: ToolArgumentValues },
    /// Answer the client at once with this result.
    Immediate { result: ToolResult },
}

/// The message naming an unknown discovered tool.
pub open spec fn unknown_luau_tool_message(name: Seq<char>) -> Seq<char> {
    "Luau tool '"@ + name + "' not found."@
}

/// The names joined with a comma and a space.
pub open spec fn comma_joined(names: Seq<Seq<char>>) -> Seq<char>
    decreases names.len(),
{
    if names.len() == 0 {
        Seq::empty()
    } else if names.len() == 1 {
        names[0]
    } else {
        comma_joined(names.drop_last()) + ", "@ + names.last()
    }
}

/// The prose that precedes the discovered tool names in the server's
/// instructions.
pub open spec fn instructions_prefix() -> Seq<char> {
    "A bridge to a running Roblox Studio instance. Use run_command to execute Luau, insert_model to add marketplace models, and execute_discovered_luau_tool for the discovered Luau tools: "@
}

/// The facade handling the stdio client's named tool calls.
pub struct RBXStudioServer {
    discovered_luau_tools: ToolRegistry,
}

impl RBXStudioServer {
    /// The registry's name-to-script mapping.
    pub closed spec fn tools(self) -> Map<Seq<char>, Seq<char>> {
        self.discovered_luau_tools@
    }

    /// The registered tool names, in registration order.
    pub closed spec fn tool_name_list(self) -> Seq<Seq<char>> {
        self.discovered_luau_tools.name_seq()
    }

    /// A facade over the given registry.
    pub fn new(discovered_luau_tools: ToolRegistry) -> (s: RBXStudioServer)
        ensures
            s.tools() == discovered_luau_tools@,
            s.tool_name_list() == discovered_luau_tools.name_seq(),
    {
        RBXStudioServer { discovered_luau_tools }
    }

    /// The discovered tool names, exactly as registered and in that order —
    /// what the capability listing advertises.  Every listed name names a
    /// registered tool.
    pub fn discovered_tool_names(&self) -> (names: Vec<String>)
        ensures
            names@.len() == self.tool_name_list().len(),
            forall|j: int|
                0 <= j < names@.len() ==> (#[trigger] names@[j])@ == self.tool_name_list()[j],
            forall|j: int| 0 <= j < names@.len() ==> self.tools().contains_key(
                (#[trigger] names@[j])@,
            ),
    {
        proof {
            self.discovered_luau_tools.lemma_names_cover_registry();
        }
        let names = self.discovered_luau_tools.tool_names();
        proof {
            assert forall|j: int| 0 <= j < names@.len() implies self.tools().contains_key(
                names@[j]@,
            ) by {
                assert(self.discovered_luau_tools.name_seq().contains(names@[j]@));
            }
        }
        names
    }

    /// The human-readable instructions advertised to the client, naming
    /// every discovered tool.
    pub fn instructions(&self) -> (r: String)
        ensures
            r@ == instructions_prefix() + comma_joined(self.tool_name_list()) + "."@,
    {
        let names = self.discovered_luau_tools.tool_names();
        let mut s = (
            "A bridge to a running Roblox Studio instance. Use run_command to execute Luau, insert_model to add marketplace models, and execute_discovered_luau_tool for the discovered Luau tools: "
        ).to_owned();
        let mut i: usize = 0;
        while i < names.len()
            invariant
                i <= names.len(),
                names@.len() == self.tool_name_list().len(),
                forall|j: int|
                    0 <= j < names@.len() ==> (#[trigger] names@[j])@ == self.tool_name_list()[j],
                s@ == instructions_prefix() + comma_joined(self.tool_name_list().take(i as int)),
            decreases names.len() - i,
        {
            if i > 0 {
                s.append(", ");
            }
            s.append(names[i].as_str());
            proof {
                assert(self.tool_name_list().take(i + 1).drop_last() =~= self.tool_name_list()
                    .take(i as int));
                assert(self.tool_name_list().take(i + 1).last() == self.tool_name_list()[
                    i as int]);
            }
            i = i + 1;
        }
        proof {
            assert(self.tool_name_list().take(names@.len() as int) =~= self.tool_name_list());
        }
        s.append(".");
        s
    }

    /// `run_command`: a raw Luau command string, always dispatched.
    pub fn run_command(command: String) -> (p: ToolCallPlan)
        ensures
            p == (ToolCallPlan::Dispatch { values: ToolArgumentValues::RunCommand { command } }),
    {
        ToolCallPlan::Dispatch { values: ToolArgumentValues::RunCommand { command } }
    }

    /// `insert_model`: a marketplace search query, always dispatched.
    pub fn insert_model(query: String) -> (p: ToolCallPlan)
        ensures
            p == (ToolCallPlan::Dispatch { values: ToolArgumentValues::InsertModel { query } }),
    {
        ToolCallPlan::Dispatch { values: ToolArgumentValues::InsertModel { query } }
    }

    /// `execute_discovered_luau_tool`: dispatched when the name is
    /// registered; otherwise an immediate tool-result error naming the
    /// missing tool, and nothing reaches the plugin.
    pub fn execute_discovered_luau_tool(
        &self,
        tool_name: String,
        tool_arguments_luau: String,
    ) -> (p: ToolCallPlan)
        ensures
            self.tools().contains_key(tool_name@) ==> p == (ToolCallPlan::Dispatch {
                values: ToolArgumentValues::ExecuteLuauByName {
                    tool_name,
                    arguments_luau: tool_arguments_luau,
                },
            }),
            !self.tools().contains_key(tool_name@) ==> ({
                &&& p matches ToolCallPlan::Immediate { result }
                &&& result.is_error == Some(true)
                &&& result.content@.len() == 1
                &&& result.content@[0] matches ContentItem::Text { text }
                &&& text@ == unknown_luau_tool_message(tool_name@)
            }),
    {
        if self.discovered_luau_tools.contains_tool(tool_name.as_str()) {
            ToolCallPlan::Dispatch {
                values: ToolArgumentValues::ExecuteLuauByName {
                    tool_name,
                    arguments_luau: tool_arguments_luau,
                },
            }
        } else {
            let mut message = ("Luau tool '").to_owned();
            message.append(tool_name.as_str());
            message.append("' not found.");
            ToolCallPlan::Immediate { result: ToolResult::error_text(message) }
        }
    }
}

} // verus!
