//! The commands the menu bar app's own executable answers without opening a
//! window: a small subset of the command line tool, kept because the watchdog
//! agent invokes this executable and a packaged install should still answer
//! `--version` and `status`.

use vstd::prelude::*;
use vstd::string::*;

use crate::errors::{CliError, CoreError, APP_NAME};
use crate::text::same_text;

verus! {

/// The hidden argument the watchdog agent passes for one dead-man pass.
pub const WATCHDOG_ARG: &'static str = "--watchdog";

/// What the process was asked to do.
#[derive(Debug, PartialEq, Eq)]
pub enum Command {
    /// No arguments: run the menu bar app.
    MenuBar,
    Enable,
    Disable,
    Status,
    Version,
    Help,
    /// One dead-man pass for the watchdog agent.
    Watchdog,
    Unknown(String),
}

/// Whether `command` is what `parse` makes of `arguments`: only the first
/// argument counts.
pub open spec fn parses_as(arguments: Seq<Seq<char>>, command: Command) -> bool {
    if arguments.len() == 0 {
        command == Command::MenuBar
    } else {
        let first = arguments[0];
        if first == "enable"@ {
            command == Command::Enable
        } else if first == "disable"@ {
            command == Command::Disable
        } else if first == "status"@ {
            command == Command::Status
        } else if first == "--version"@ || first == "-v"@ || first == "version"@ {
            command == Command::Version
        } else if first == "--help"@ || first == "-h"@ || first == "help"@ {
            command == Command::Help
        } else if first == WATCHDOG_ARG@ {
            command == Command::Watchdog
        } else {
            command matches Command::Unknown(other) && other@ == first
        }
    }
}

/// Only the first argument decides the command: whatever follows it changes
/// nothing, and no argument at all launches the menu bar app.
pub proof fn lemma_only_the_first_argument_counts(
    a: Seq<Seq<char>>,
    b: Seq<Seq<char>>,
    command: Command,
)
    requires
        a.len() > 0,
        b.len() > 0,
        a[0] == b[0],
    ensures
        parses_as(a, command) == parses_as(b, command),
        parses_as(Seq::empty(), command) == (command == Command::MenuBar),
{
}

/// Reads the command from the arguments after the program name.
pub fn parse(arguments: &[String]) -> (command: Command)
    ensures
        parses_as(arguments@.map_values(|a: String| a@), command),
{
    let ghost views = arguments@.map_values(|a: String| a@);
    if arguments.len() == 0 {
        return Command::MenuBar;
    }
    let first = arguments[0].as_str();
    assert(first@ == views[0]);
    if same_text(first, "enable") {
        Command::Enable
    } else if same_text(first, "disable") {
        Command::Disable
    } else if same_text(first, "status") {
        Command::Status
    } else if same_text(first, "--version") || same_text(first, "-v") || same_text(first, "version") {
        Command::Version
    } else if same_text(first, "--help") || same_text(first, "-h") || same_text(first, "help") {
        Command::Help
    } else if same_text(first, WATCHDOG_ARG) {
        Command::Watchdog
    } else {
        Command::Unknown(arguments[0].clone())
    }
}

/// The usage text, named after however this copy was invoked (`command`) so
/// the usage lines stay copy-pasteable.
pub open spec fn help_spec(command: Seq<char>, version: Seq<char>) -> Seq<char> {
    APP_NAME@ + " "@ + version + "\n\nUsage:\n  "@
        + command + "              Launch the menu bar app\n  "@
        + command + " enable       Hold closed-lid sleep\n  "@
        + command + " disable      Restore normal closed-lid sleep\n  "@
        + command + " status       Print the current closed-lid sleep hold status\n  "@
        + command + " --version    Print the version\n  "@
        + command + " --help       Show this help"@
}

pub fn help(command: &str, version: &str) -> (text: String)
    ensures
        text@ == help_spec(command@, version@),
{
    let mut text = String::from_str(APP_NAME);
    text.append(" ");
    text.append(version);
    text.append("\n\nUsage:\n  ");
    text.append(command);
    text.append("              Launch the menu bar app\n  ");
    text.append(command);
    text.append(" enable       Hold closed-lid sleep\n  ");
    text.append(command);
    text.append(" disable      Restore normal closed-lid sleep\n  ");
    text.append(command);
    text.append(" status       Print the current closed-lid sleep hold status\n  ");
    text.append(command);
    text.append(" --version    Print the version\n  ");
    text.append(command);
    text.append(" --help       Show this help");
    text
}

/// The line `--version` prints.
pub fn version_line(version: &str) -> (line: String)
    ensures
        line@ == APP_NAME@ + " "@ + version@,
{
    let mut line = String::from_str(APP_NAME);
    line.append(" ");
    line.append(version);
    line
}

/// What an unknown argument is answered with on standard error: the
/// argument, then the usage text.
pub fn unknown_command_lines(argument: &str, usage: &str) -> (lines: Vec<String>)
    ensures
        lines@.map_values(|line: String| line@) == seq!["Unknown command: "@ + argument@, usage@],
{
    let mut first = String::from_str("Unknown command: ");
    first.append(argument);
    let lines = vec![first, String::from_str(usage)];
    assert(lines@.map_values(|line: String| line@) =~= seq![
        "Unknown command: "@ + argument@,
        usage@,
    ]);
    lines
}

/// The exit code for an argument the executable does not know: `EX_USAGE`
/// from `sysexits.h`, as the command line tool uses.
pub const USAGE_EXIT_CODE: u8 = 64;

/// What the executable prints and how it exits.
pub struct Reply {
    /// Lines for standard output.
    pub out: Vec<String>,
    /// Lines for standard error.
    pub err: Vec<String>,
    pub code: u8,
}

/// The views of a list of lines.
pub open spec fn lines_view(lines: Seq<String>) -> Seq<Seq<char>> {
    lines.map_values(|line: String| line@)
}

/// What a successful `enable`, `disable` or `status` prints; `held` is
/// whether the hold was found in place, which only `status` reports.
pub open spec fn success_line(command: Command, held: bool) -> Seq<char> {
    match command {
        Command::Enable => APP_NAME@ + " is holding closed-lid sleep."@,
        Command::Disable => APP_NAME@ + " restored normal closed-lid sleep."@,
        _ => "closed-lid sleep hold: "@ + if held {
            "enabled"@
        } else {
            "disabled"@
        },
    }
}

/// What a command other than launching the menu bar answers, once its work
/// is done (`failure` is how the work failed, if it did, and `held` what
/// `status` read; commands with no work ignore both): standard output,
/// standard error, exit code. A failed change or status reads as the core
/// error and its hint on standard error, with plain failure; the watchdog
/// pass is silent either way, since launchd runs it every minute.
pub open spec fn answer_spec(
    command: Command,
    program: Seq<char>,
    version: Seq<char>,
    held: bool,
    failure: Option<CoreError>,
) -> (Seq<Seq<char>>, Seq<Seq<char>>, u8) {
    match command {
        Command::Version => (seq![APP_NAME@ + " "@ + version], Seq::empty(), 0),
        Command::Help => (seq![help_spec(program, version)], Seq::empty(), 0),
        Command::Unknown(argument) => (
            Seq::empty(),
            seq!["Unknown command: "@ + argument@, help_spec(program, version)],
            USAGE_EXIT_CODE,
        ),
        Command::Watchdog => (Seq::empty(), Seq::empty(), if failure is Some { 1 } else { 0 }),
        _ => match failure {
            Some(error) => (Seq::empty(), CliError::Lid(error).report_spec(Seq::empty()), 1),
            None => (seq![success_line(command, held)], Seq::empty(), 0),
        },
    }
}

fn success_text(command: &Command, held: bool) -> (line: String)
    ensures
        line@ == success_line(*command, held),
{
    match command {
        Command::Enable => {
            let mut line = String::from_str(APP_NAME);
            line.append(" is holding closed-lid sleep.");
            line
        },
        Command::Disable => {
            let mut line = String::from_str(APP_NAME);
            line.append(" restored normal closed-lid sleep.");
            line
        },
        _ => {
            let mut line = String::from_str("closed-lid sleep hold: ");
            line.append(if held { "enabled" } else { "disabled" });
            line
        },
    }
}

/// The answer to `command`, as `answer_spec` says. Launching the menu bar app
/// is not answered here.
pub fn answer(
    command: Command,
    program: &str,
    version: &str,
    held: bool,
    failure: Option<CoreError>,
) -> (reply: Reply)
    requires
        command != Command::MenuBar,
    ensures
        (lines_view(reply.out@), lines_view(reply.err@), reply.code) == answer_spec(
            command,
            program@,
            version@,
            held,
            failure,
        ),
{
    match command {
        Command::Version => {
            let out = vec![version_line(version)];
            assert(lines_view(out@) =~= seq![APP_NAME@ + " "@ + version@]);
            Reply { out, err: Vec::new(), code: 0 }
        },
        Command::Help => {
            let out = vec![help(program, version)];
            assert(lines_view(out@) =~= seq![help_spec(program@, version@)]);
            Reply { out, err: Vec::new(), code: 0 }
        },
        Command::Unknown(argument) => {
            let usage = help(program, version);
            let err = unknown_command_lines(argument.as_str(), usage.as_str());
            Reply { out: Vec::new(), err, code: USAGE_EXIT_CODE }
        },
        Command::Watchdog => {
            let code: u8 = if failure.is_some() { 1 } else { 0 };
            let reply = Reply { out: Vec::new(), err: Vec::new(), code };
            assert(lines_view(reply.out@) =~= Seq::empty());
            assert(lines_view(reply.err@) =~= Seq::empty());
            reply
        },
        _ => match failure {
            Some(error) => {
                let causes: Vec<String> = Vec::new();
                let err = CliError::Lid(error).report(&causes);
                assert(causes@.map_values(|cause: String| cause@) =~= Seq::<Seq<char>>::empty());
                let reply = Reply { out: Vec::new(), err, code: 1 };
                assert(lines_view(reply.out@) =~= Seq::empty());
                reply
            },
            None => {
                let line = success_text(&command, held);
                let ghost expected = success_line(command, held);
                let out = vec![line];
                let reply = Reply { out, err: Vec::new(), code: 0 };
                assert(lines_view(reply.out@) =~= seq![expected]);
                assert(lines_view(reply.err@) =~= Seq::empty());
                reply
            },
        },
    }
}

} // verus!
