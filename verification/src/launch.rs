//! How an editor starts the language server that serves this analysis.

use vstd::prelude::*;

verus! {

/// A command line with its environment.
#[derive(Clone, Debug, PartialEq, Eq)]
pub struct LaunchCommand {
    pub command: String,
    pub args: Vec<String>,
    pub env: Vec<(String, String)>,
}

/// The command that starts the language server: the `frame-check-lsp`
/// program, without arguments, in the environment that the caller hands in.
pub fn language_server_command(env: Vec<(String, String)>) -> (launch: LaunchCommand)
    ensures
        launch.command@ == "frame-check-lsp"@,
        launch.args@.len() == 0,
        launch.env == env,
{
    LaunchCommand { command: "frame-check-lsp".to_owned(), args: Vec::new(), env }
}

} // verus!
