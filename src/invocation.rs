//! The external command that reaches the host's input-injection tool.
use vstd::prelude::*;
use vstd::string::*;
use crate::environment::EnvironmentState;

verus! {

/// The host tool that synthesises keyboard input.
pub const TOOL_PROGRAM: &'static str = "ydotool";

/// The broker that runs a command on the host from inside the sandbox.
pub const BROKER_PROGRAM: &'static str = "flatpak-spawn";

/// The broker's flag that forwards the rest of its arguments to the host.
pub const HOST_FLAG: &'static str = "--host";

/// The tool's subcommand that types its one text argument.
pub const TYPE_SUBCOMMAND: &'static str = "type";

/// The tool's subcommand that only reports usage; used to probe for it.
pub const HELP_SUBCOMMAND: &'static str = "help";

/// A program and its argument vector, run without any shell in between.
pub struct Invocation {
    pub program: String,
    pub arguments: Vec<String>,
}

impl Invocation {
    /// The arguments as character sequences.
    pub open spec fn argv(&self) -> Seq<Seq<char>> {
        self.arguments@.map_values(|a: String| a@)
    }
}

/// The program that is started for the tool.
pub open spec fn host_program(isolated: bool) -> Seq<char> {
    if isolated {
        BROKER_PROGRAM@
    } else {
        TOOL_PROGRAM@
    }
}

/// The arguments that start the tool with `tool_args`.
pub open spec fn host_arguments(isolated: bool, tool_args: Seq<Seq<char>>) -> Seq<Seq<char>> {
    if isolated {
        seq![HOST_FLAG@, TOOL_PROGRAM@] + tool_args
    } else {
        tool_args
    }
}

/// The tool's arguments that type `payload`.
pub open spec fn typing_arguments(payload: Seq<char>) -> Seq<Seq<char>> {
    seq![TYPE_SUBCOMMAND@, payload]
}

/// The tool's arguments that probe whether it can be run.
pub open spec fn probe_arguments() -> Seq<Seq<char>> {
    seq![HELP_SUBCOMMAND@]
}

/// In a sandbox the program started is always the broker, never the tool
/// itself, which follows the broker's host flag as the second argument.
pub proof fn lemma_isolated_runs_broker(tool_args: Seq<Seq<char>>)
    ensures
        host_program(true) == BROKER_PROGRAM@,
        host_program(true) != TOOL_PROGRAM@,
        host_arguments(true, tool_args)[0] == HOST_FLAG@,
        host_arguments(true, tool_args)[1] == TOOL_PROGRAM@,
{
    reveal_strlit("flatpak-spawn");
    reveal_strlit("ydotool");
    assert(BROKER_PROGRAM@.len() != TOOL_PROGRAM@.len());
}

/// Whatever it holds (spaces, quotes, shell characters), the payload is
/// handed over as exactly one argument, the last, unchanged; the number of
/// arguments does not depend on it.
pub proof fn lemma_payload_single_argument(isolated: bool, payload: Seq<char>, other: Seq<char>)
    ensures
        host_arguments(isolated, typing_arguments(payload)).last() == payload,
        host_arguments(isolated, typing_arguments(payload)).len() == if isolated {
            4int
        } else {
            2int
        },
        host_arguments(isolated, typing_arguments(payload)).len() == host_arguments(
            isolated,
            typing_arguments(other),
        ).len(),
        host_arguments(isolated, typing_arguments(payload)).drop_last() == host_arguments(
            isolated,
            typing_arguments(other),
        ).drop_last(),
{
    let a = host_arguments(isolated, typing_arguments(payload));
    let b = host_arguments(isolated, typing_arguments(other));
    assert(a.drop_last() =~= b.drop_last());
}

/// The invocation that runs the tool with `tool_args`: directly, or through
/// the broker when the process is isolated.
fn on_host(state: EnvironmentState, tool_args: Vec<String>) -> (r: Invocation)
    ensures
        r.program@ == host_program(state.isolated),
        r.argv() == host_arguments(state.isolated, tool_args@.map_values(|a: String| a@)),
{
    let ghost tail = tool_args@.map_values(|a: String| a@);
    let mut tool_args = tool_args;
    if state.isolated {
        let mut arguments: Vec<String> = Vec::new();
        arguments.push(String::from_str(HOST_FLAG));
        arguments.push(String::from_str(TOOL_PROGRAM));
        arguments.append(&mut tool_args);
        let r = Invocation { program: String::from_str(BROKER_PROGRAM), arguments };
        assert(r.argv() =~= seq![HOST_FLAG@, TOOL_PROGRAM@] + tail);
        r
    } else {
        Invocation { program: String::from_str(TOOL_PROGRAM), arguments: tool_args }
    }
}

impl Invocation {
    /// The invocation that types `payload`. The payload travels as one
    /// argument of its own, unsplit and never read by a shell.
    pub fn build(state: EnvironmentState, payload: &str) -> (r: Invocation)
        ensures
            r.program@ == host_program(state.isolated),
            r.argv() == host_arguments(state.isolated, typing_arguments(payload@)),
    {
        let mut tool_args: Vec<String> = Vec::new();
        tool_args.push(String::from_str(TYPE_SUBCOMMAND));
        tool_args.push(String::from_str(payload));
        assert(tool_args@.map_values(|a: String| a@) =~= typing_arguments(payload@));
        on_host(state, tool_args)
    }

    /// The invocation that checks whether the tool can be run at all.
    pub fn probe(state: EnvironmentState) -> (r: Invocation)
        ensures
            r.program@ == host_program(state.isolated),
            r.argv() == host_arguments(state.isolated, probe_arguments()),
    {
        let mut tool_args: Vec<String> = Vec::new();
        tool_args.push(String::from_str(HELP_SUBCOMMAND));
        assert(tool_args@.map_values(|a: String| a@) =~= probe_arguments());
        on_host(state, tool_args)
    }
}

} // verus!
