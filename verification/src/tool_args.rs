//! The unit of work flowing through the broker: a tagged tool invocation
//! together with the id assigned at dispatch time, and its plugin-native
//! wire form (a Luau script body returned by the long-poll endpoint).

use vstd::prelude::*;
use vstd::string::StringExecFns;

use crate::task_id::generate_task_id;
use crate::task_id::task_id_to_string;
use crate::task_id::uuid_hyphenated;

verus! {

/// The three tool invocations the broker can carry.
#[derive(Clone, Debug, PartialEq, Eq)]
pub enum ToolArgumentValues {
    RunCommand { command: String },
    InsertModel { query: String },
    ExecuteLuauByName { tool_name: String, arguments_luau: String },
}

/// One pending tool call.  `id` is assigned at dispatch time and is set for
/// every task placed into the queue or the pending table.
#[derive(Clone, Debug, PartialEq, Eq)]
pub struct ToolArguments {
    pub args: ToolArgumentValues,
    pub id: Option<u128>,
}

/// The Luau fragment describing one argument variant, field values embedded
/// as double-bracketed long strings.
pub open spec fn luau_args_view(args: ToolArgumentValues) -> Seq<char> {
    match args {
        ToolArgumentValues::RunCommand { command } => "RunCommand = { command = [["@ + command@
            + "]] }"@,
        ToolArgumentValues::InsertModel { query } => "InsertModel = { query = [["@ + query@
            + "]] }"@,
        ToolArgumentValues::ExecuteLuauByName { tool_name, arguments_luau } => {
            "ExecuteLuauByName = { tool_name = \""@ + tool_name@ + "\", arguments_luau = [["@
                + arguments_luau@ + "]] }"@
        },
    }
}

/// The id field of the wire form: the quoted hyphenated id, or `nil` when no
/// id was assigned.
pub open spec fn luau_id_view(id: Option<u128>) -> Seq<char> {
    match id {
        Some(i) => "\""@ + uuid_hyphenated(i) + "\""@,
        None => "nil"@,
    }
}

/// The whole wire form of a task as the plugin consumes it.
pub open spec fn luau_task_view(t: ToolArguments) -> Seq<char> {
    "return { id = "@ + luau_id_view(t.id) + ", args = { "@ + luau_args_view(t.args) + " } }"@
}

/// Renders one argument variant as its Luau fragment.
pub fn format_tool_argument_values_to_luau_string(args: &ToolArgumentValues) -> (r: String)
    ensures
        r@ == luau_args_view(*args),
{
    match args {
        ToolArgumentValues::RunCommand { command } => {
            let mut s = ("RunCommand = { command = [[").to_owned();
            s.append(command.as_str());
            s.append("]] }");
            s
        },
        ToolArgumentValues::InsertModel { query } => {
            let mut s = ("InsertModel = { query = [[").to_owned();
            s.append(query.as_str());
            s.append("]] }");
            s
        },
        ToolArgumentValues::ExecuteLuauByName { tool_name, arguments_luau } => {
            let mut s = ("ExecuteLuauByName = { tool_name = \"").to_owned();
            s.append(tool_name.as_str());
            s.append("\", arguments_luau = [[");
            s.append(arguments_luau.as_str());
            s.append("]] }");
            s
        },
    }
}

impl ToolArguments {
    /// Builds the task handed to the plugin: `return { id = .., args = .. }`.
    pub fn to_luau_string(&self) -> (r: String)
        ensures
            r@ == luau_task_view(*self),
    {
        let mut s = ("return { id = ").to_owned();
        match self.id {
            Some(i) => {
                s.append("\"");
                let id_str = task_id_to_string(i);
                s.append(id_str.as_str());
                s.append("\"");
            },
            None => {
                s.append("nil");
            },
        }
        s.append(", args = { ");
        let args_str = format_tool_argument_values_to_luau_string(&self.args);
        s.append(args_str.as_str());
        s.append(" } }");
        s
    }

    /// Pairs the given argument values with a freshly generated id.
    pub fn new_with_id(args_values: ToolArgumentValues) -> (r: (ToolArguments, u128))
        ensures
            r.0.id == Some(r.1),
            r.0.args == args_values,
    {
        let id = generate_task_id();
        (ToolArguments { args: args_values, id: Some(id) }, id)
    }
}

} // verus!
