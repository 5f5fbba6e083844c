//! The texts shown to the user after a successful installation.

use vstd::prelude::*;
use vstd::string::StringExecFns;

verus! {

/// What precedes the list of configured clients.
pub open spec fn claude_cursor_message_prefix() -> Seq<char> {
    "Roblox Studio MCP is ready to go for integration with configured AI clients.
        Please restart Studio and any MCP clients (like Cursor) to apply the changes.

        MCP Clients successfully configured:
        "@
}

/// What follows the list of configured clients.
pub open spec fn claude_cursor_message_suffix() -> Seq<char> {
    "

        Note: Connecting a third-party LLM to Roblox Studio via an MCP server will share your data with that external service provider. Please review their privacy practices carefully before proceeding.
        To uninstall, delete MCPStudioPlugin.rbxm from your Plugins directory and remove entries from client configurations."@
}

/// The installer's closing message, wrapped around the newline-separated
/// list of successfully configured clients.
pub fn get_message_claude_cursor(successes: String) -> (r: String)
    ensures
        r@ == claude_cursor_message_prefix() + successes@ + claude_cursor_message_suffix(),
{
    let mut s = ("Roblox Studio MCP is ready to go for integration with configured AI clients.
        Please restart Studio and any MCP clients (like Cursor) to apply the changes.

        MCP Clients successfully configured:
        ").to_owned();
    s.append(successes.as_str());
    s.append(
        "

        Note: Connecting a third-party LLM to Roblox Studio via an MCP server will share your data with that external service provider. Please review their privacy practices carefully before proceeding.
        To uninstall, delete MCPStudioPlugin.rbxm from your Plugins directory and remove entries from client configurations.",
    );
    s
}

/// The installer's closing message in the Python-broker set-up.
pub open spec fn gemini_python_broker_message() -> Seq<char> {
    "Roblox Studio MCP (Gemini Python Broker Mode) is set up!
        The necessary Roblox Studio plugin (MCPStudioPlugin.rbxm) has been installed.

        To use the Gemini AI capabilities with Roblox Studio:
        1. Ensure you have Python installed.
        2. Run the `setup_venv.bat` script once to create a Python virtual environment and install dependencies.
        3. Use the `run_agent.bat` script to start the Python-based Gemini agent.
        4. The `run_rust_server.bat` script can be used to start the MCP server that communicates with Roblox Studio (if not already started by another process or if you need to run it manually).

        The Python agent will connect to this MCP server to interact with Roblox Studio.
        To uninstall, delete MCPStudioPlugin.rbxm from your Plugins directory."@
}

/// The message shown when the Python-broker set-up finishes.
pub fn get_message_gemini_python_broker() -> (r: String)
    ensures
        r@ == gemini_python_broker_message(),
{
    ("Roblox Studio MCP (Gemini Python Broker Mode) is set up!
        The necessary Roblox Studio plugin (MCPStudioPlugin.rbxm) has been installed.

        To use the Gemini AI capabilities with Roblox Studio:
        1. Ensure you have Python installed.
        2. Run the `setup_venv.bat` script once to create a Python virtual environment and install dependencies.
        3. Use the `run_agent.bat` script to start the Python-based Gemini agent.
        4. The `run_rust_server.bat` script can be used to start the MCP server that communicates with Roblox Studio (if not already started by another process or if you need to run it manually).

        The Python agent will connect to this MCP server to interact with Roblox Studio.
        To uninstall, delete MCPStudioPlugin.rbxm from your Plugins directory.").to_owned()
}

} // verus!
