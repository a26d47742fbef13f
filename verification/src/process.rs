//! What is handed to the subprocess runner and what comes back from it.
//!
//! The library never starts a process. It says which program to run with
//! which arguments, and it reads the outcome that its caller reports.

use vstd::prelude::*;
use vstd::string::*;
use vstd::utf8::*;

verus! {

/// A program and the arguments to run it with.
#[derive(Debug, Clone, PartialEq, Eq)]
pub struct CommandLine {
    /// The program's name, looked up on the executable search path.
    pub program: String,
    /// The arguments, in order.
    pub args: Vec<String>,
}

/// The mathematical value of a [`CommandLine`].
pub struct CommandLineView {
    pub program: Seq<char>,
    pub args: Seq<Seq<char>>,
}

impl View for CommandLine {
    type V = CommandLineView;

    open spec fn view(&self) -> CommandLineView {
        CommandLineView { program: self.program@, args: self.args.deep_view() }
    }
}

/// What a process left behind when it ended.
#[derive(Debug, Clone, PartialEq, Eq)]
pub struct CommandOutput {
    /// The exit code; `None` where a signal ended the process.
    pub code: Option<i32>,
    /// What the process wrote to standard output.
    pub stdout: String,
    /// What the process wrote to standard error.
    pub stderr: String,
}

/// The mathematical value of a [`CommandOutput`].
pub struct CommandOutputView {
    pub code: Option<i32>,
    pub stdout: Seq<char>,
    pub stderr: Seq<char>,
}

impl View for CommandOutput {
    type V = CommandOutputView;

    open spec fn view(&self) -> CommandOutputView {
        CommandOutputView { code: self.code, stdout: self.stdout@, stderr: self.stderr@ }
    }
}

impl CommandOutputView {
    /// Whether the process ended with exit code zero.
    pub open spec fn success(self) -> bool {
        self.code == Some(0i32)
    }

    /// The exit code, or -1 where a signal ended the process.
    pub open spec fn code_or_default(self) -> i32 {
        match self.code {
            Some(code) => code,
            None => -1i32,
        }
    }
}

/// The text that lossy decoding makes of `bytes`: the decoded characters, with
/// U+FFFD in place of each sequence that is not valid UTF-8.
pub uninterp spec fn utf8_lossy(bytes: Seq<u8>) -> Seq<char>;

/// `String::from_utf8_lossy`, made into an owned text. The result depends on
/// the bytes alone; bytes that are valid UTF-8 are decoded as they stand.
#[verifier::external_body]
fn lossy_text(bytes: &[u8]) -> (text: String)
    ensures
        text@ == utf8_lossy(bytes@),
        valid_utf8(bytes@) ==> text@ == decode_utf8(bytes@),
{
    String::from_utf8_lossy(bytes).into_owned()
}

impl CommandOutput {
    /// The outcome of a process from its exit code and the bytes it wrote.
    pub fn new(code: Option<i32>, stdout: &[u8], stderr: &[u8]) -> (output: CommandOutput)
        ensures
            output@ == (CommandOutputView {
                code,
                stdout: utf8_lossy(stdout@),
                stderr: utf8_lossy(stderr@),
            }),
            valid_utf8(stdout@) ==> output@.stdout == decode_utf8(stdout@),
            valid_utf8(stderr@) ==> output@.stderr == decode_utf8(stderr@),
    {
        CommandOutput { code, stdout: lossy_text(stdout), stderr: lossy_text(stderr) }
    }

    /// Whether the process ended with exit code zero.
    pub fn success(&self) -> (b: bool)
        ensures
            b == self@.success(),
    {
        match self.code {
            Some(code) => code == 0,
            None => false,
        }
    }

    /// The exit code, or -1 where a signal ended the process.
    pub fn code_or_default(&self) -> (code: i32)
        ensures
            code == self@.code_or_default(),
    {
        match self.code {
            Some(code) => code,
            None => -1,
        }
    }
}

/// What the subprocess runner reports of one command.
#[derive(Debug, Clone, PartialEq, Eq)]
pub enum Outcome {
    /// The program could not be started.
    LaunchFailed,
    /// The program ran and ended.
    Exited(CommandOutput),
}

/// The mathematical value of an [`Outcome`].
pub enum OutcomeView {
    LaunchFailed,
    Exited(CommandOutputView),
}

impl View for Outcome {
    type V = OutcomeView;

    open spec fn view(&self) -> OutcomeView {
        match *self {
            Outcome::LaunchFailed => OutcomeView::LaunchFailed,
            Outcome::Exited(output) => OutcomeView::Exited(output@),
        }
    }
}

/// The command line made of `program` and `args`.
pub open spec fn command_line(program: Seq<char>, args: Seq<Seq<char>>) -> CommandLineView {
    CommandLineView { program, args }
}

/// Builds a command line from a program and its arguments.
pub fn command(program: &str, args: Vec<String>) -> (line: CommandLine)
    ensures
        line@ == command_line(program@, args.deep_view()),
{
    CommandLine { program: String::from_str(program), args }
}

/// The command that hands `cmd` to a POSIX shell as one argument, so that the
/// shell and nothing before it splits and interprets the text.
pub open spec fn shell_line(cmd: Seq<char>) -> CommandLineView {
    command_line("sh"@, seq!["-c"@, cmd])
}

/// Builds the command that runs `cmd` in a shell.
pub fn shell_command(cmd: &str) -> (line: CommandLine)
    ensures
        line@ == shell_line(cmd@),
{
    let mut args: Vec<String> = Vec::new();
    args.push(String::from_str("-c"));
    args.push(String::from_str(cmd));
    assert(args.deep_view() =~= seq!["-c"@, cmd@]);
    command("sh", args)
}

} // verus!
