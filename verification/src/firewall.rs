//! The session with the elevated shell, and the three firewall commands that
//! run through it.

use crate::model;
use crate::model::Request;
use crate::protocol::{compose, is_sentinel};
use crate::text::{join_lines, split_lines};
use vstd::prelude::*;

verus! {

/// Why a session could not be had, or a command did not finish.
#[derive(Debug, PartialEq, Eq)]
pub enum ShellError {
    /// The shell could not be started, or one of its pipes could not be had.
    Spawn(String),
    /// Writing to the shell or reading from it failed, or the shell's output
    /// ended before the marker had come.
    Io(String),
    /// A command was submitted while another was still in flight.
    Busy,
    /// An event was reported that does not answer what the session asked for.
    OutOfTurn,
}

impl View for ShellError {
    type V = model::Failure;

    open spec fn view(&self) -> model::Failure {
        match self {
            ShellError::Spawn(reason) => model::Failure::Spawn(reason@),
            ShellError::Io(reason) => model::Failure::Io(reason@),
            ShellError::Busy => model::Failure::Busy,
            ShellError::OutOfTurn => model::Failure::OutOfTurn,
        }
    }
}

impl ShellError {
    /// The failure in words.
    pub fn message(&self) -> (text: String)
        ensures
            text@ == model::message(self@),
    {
        match self {
            ShellError::Spawn(reason) => reason.clone(),
            ShellError::Io(reason) => reason.clone(),
            ShellError::Busy => String::from_str("the shell is busy with another command"),
            ShellError::OutOfTurn => String::from_str("the shell was not waiting for this event"),
        }
    }
}

/// What a finished command hands to its caller.
#[derive(Debug, PartialEq, Eq)]
pub enum Reply {
    /// All that the command printed, each line followed by a line feed.
    Text(String),
    /// The lines of a rule listing.
    Rules(Vec<String>),
    /// The command ran.
    Done,
}

impl View for Reply {
    type V = model::Reply;

    open spec fn view(&self) -> model::Reply {
        match self {
            Reply::Text(text) => model::Reply::Text(text@),
            Reply::Rules(lines) => model::Reply::Rules(lines.deep_view()),
            Reply::Done => model::Reply::Done,
        }
    }
}

/// What happened at the pipes.
#[derive(Debug, PartialEq, Eq)]
pub enum Event {
    /// The line was written and flushed.
    Written,
    /// One line was read; it comes without its line ending.
    Line(String),
    /// The shell's output ended: the shell is gone, or has closed its pipe.
    Closed,
    /// The write, the flush or the read failed; the text says how.
    Failed(String),
}

impl View for Event {
    type V = model::Event;

    open spec fn view(&self) -> model::Event {
        match self {
            Event::Written => model::Event::Written,
            Event::Line(line) => model::Event::Line(line@),
            Event::Closed => model::Event::Closed,
            Event::Failed(reason) => model::Event::Failed(reason@),
        }
    }
}

/// What came of a command, over plain values.
pub open spec fn outcome_view(outcome: Result<Reply, ShellError>) -> Result<
    model::Reply,
    model::Failure,
> {
    match outcome {
        Ok(reply) => Ok(reply@),
        Err(error) => Err(error@),
    }
}

/// What to do next at the pipes.
#[derive(Debug, PartialEq, Eq)]
pub enum Action {
    /// Write this text to the shell's input and flush it.
    Send(String),
    /// Read one line from the shell's output.
    ReadLine,
    /// Nothing more: hand this to the caller.
    Finish(Result<Reply, ShellError>),
}

impl View for Action {
    type V = model::Action;

    open spec fn view(&self) -> model::Action {
        match self {
            Action::Send(line) => model::Action::Send(line@),
            Action::ReadLine => model::Action::ReadLine,
            Action::Finish(outcome) => model::Action::Finish(outcome_view(*outcome)),
        }
    }
}

/// How starting the shell went.
#[derive(Debug, PartialEq, Eq)]
pub enum Launch {
    /// The launcher could not be started; the text says why.
    Refused(String),
    /// The launcher runs; each flag says whether that pipe could be had.
    Started { stdin: bool, stdout: bool },
}

impl View for Launch {
    type V = model::Launch;

    open spec fn view(&self) -> model::Launch {
        match self {
            Launch::Refused(reason) => model::Launch::Refused(reason@),
            Launch::Started { stdin, stdout } => model::Launch::Started {
                stdin: *stdin,
                stdout: *stdout,
            },
        }
    }
}

/// How one of the launcher's three streams is set up.
#[derive(Clone, Copy, Debug, PartialEq, Eq)]
pub enum Stream {
    /// A pipe between the launcher and whoever started it.
    Piped,
    /// The stream of whoever started the launcher.
    Inherited,
}

/// How the shell is to be launched.
#[derive(Debug, PartialEq, Eq)]
pub struct LaunchPlan {
    pub program: String,
    pub argument: String,
    pub stdin: Stream,
    pub stdout: Stream,
    pub stderr: Stream,
}

/// The launch of the elevated shell: `pkexec` starts `bash`, with pipes to
/// its input and from its output; what it prints as errors goes where the
/// errors of the one who started it go.
pub fn launch_plan() -> (plan: LaunchPlan)
    ensures
        plan.program@ == "pkexec"@,
        plan.argument@ == "bash"@,
        plan.stdin == Stream::Piped,
        plan.stdout == Stream::Piped,
        plan.stderr == Stream::Inherited,
{
    LaunchPlan {
        program: String::from_str("pkexec"),
        argument: String::from_str("bash"),
        stdin: Stream::Piped,
        stdout: Stream::Piped,
        stderr: Stream::Inherited,
    }
}

/// Settles a launch by what came of the first command. The launcher asks for
/// leave only after it was started, and starts no shell where it is denied;
/// the first command then fails, and the launch counts as refused for that
/// failure.
pub fn confirm_launch(first: Result<Reply, ShellError>) -> (outcome: Result<(), ShellError>)
    ensures
        match outcome {
            Ok(_) => model::probe_failure(outcome_view(first)) is None,
            Err(error) => model::probe_failure(outcome_view(first)) == Some(error@),
        },
{
    match first {
        Ok(_) => Ok(()),
        Err(failure) => {
            let reason = failure.message();
            let mut message = String::from_str("failed to start pkexec shell: ");
            message.append(reason.as_str());
            Err(ShellError::Spawn(message))
        },
    }
}

/// What the caller of a listing is handed: the listing as one text, its lines
/// joined by line feeds, or the failure in words.
pub fn listing_answer(outcome: Result<Reply, ShellError>) -> (answer: Result<String, String>)
    ensures
        match outcome {
            Ok(reply) => answer matches Ok(text) && text@ == model::shown(reply@),
            Err(error) => answer matches Err(text) && text@ == model::message(error@),
        },
{
    match outcome {
        Ok(Reply::Text(text)) => Ok(text),
        Ok(Reply::Rules(lines)) => Ok(join_lines(&lines)),
        Ok(Reply::Done) => Ok(String::new()),
        Err(error) => Err(error.message()),
    }
}

/// What the caller of an append or a delete is handed: that it was done, or
/// the failure in words.
pub fn status_answer(outcome: Result<Reply, ShellError>) -> (answer: Result<(), String>)
    ensures
        match outcome {
            Ok(_) => answer is Ok,
            Err(error) => answer matches Err(text) && text@ == model::message(error@),
        },
{
    match outcome {
        Ok(_) => Ok(()),
        Err(error) => Err(error.message()),
    }
}

/// The command that lists the rules of a chain, with numeric output and line
/// numbers.
pub open spec fn list_text(table: Seq<char>, chain: Seq<char>) -> Seq<char> {
    "iptables -t "@ + table + " -L "@ + chain + " -n --line-numbers"@
}

/// The command that appends a rule to a chain.
pub open spec fn add_text(table: Seq<char>, chain: Seq<char>, rule: Seq<char>) -> Seq<char> {
    "iptables -t "@ + table + " -A "@ + chain + " "@ + rule
}

/// The command that deletes the rule at a line number of a chain.
pub open spec fn delete_text(table: Seq<char>, chain: Seq<char>, line: Seq<char>) -> Seq<char> {
    "iptables -t "@ + table + " -D "@ + chain + " "@ + line
}

/// Builds the listing command. The names are put in as they are given.
pub fn list_command(table: &str, chain: &str) -> (command: String)
    ensures
        command@ == list_text(table@, chain@),
{
    let mut command = String::from_str("iptables -t ");
    command.append(table);
    command.append(" -L ");
    command.append(chain);
    command.append(" -n --line-numbers");
    command
}

/// Builds the appending command. The names and the rule are put in as they
/// are given.
pub fn add_command(table: &str, chain: &str, rule: &str) -> (command: String)
    ensures
        command@ == add_text(table@, chain@, rule@),
{
    let mut command = String::from_str("iptables -t ");
    command.append(table);
    command.append(" -A ");
    command.append(chain);
    command.append(" ");
    command.append(rule);
    command
}

/// Builds the deleting command. The names and the line number are put in as
/// they are given.
pub fn delete_command(table: &str, chain: &str, line: &str) -> (command: String)
    ensures
        command@ == delete_text(table@, chain@, line@),
{
    let mut command = String::from_str("iptables -t ");
    command.append(table);
    command.append(" -D ");
    command.append(chain);
    command.append(" ");
    command.append(line);
    command
}

#[derive(Clone, Copy, Debug, PartialEq, Eq)]
enum Phase {
    Idle,
    Sending,
    Reading,
}

/// One session with the elevated shell. It holds no pipe itself: it says what
/// to do at the pipes, and is told what came of it.
///
/// A command is submitted with `run_cmd`, `list_rules`, `add_rule` or
/// `delete_rule`, and the first of all with `probe`. The action that comes back is carried out, what happened is
/// reported with `step`, and so on with each action that `step` gives, until
/// it gives `Action::Finish` with the command's result. Every one of these
/// calls takes the session by `&mut`: where threads share a shell, the
/// session and the two pipes belong under one lock, held from the submitting
/// of a command to its result.
#[derive(Debug)]
pub struct PkexecShell {
    phase: Phase,
    request: Request,
    output: String,
}

impl View for PkexecShell {
    type V = model::Session;

    closed spec fn view(&self) -> model::Session {
        match self.phase {
            Phase::Idle => model::Session::Idle,
            Phase::Sending => model::Session::Sending(self.request),
            Phase::Reading => model::Session::Reading(self.request, self.output@),
        }
    }
}

impl PkexecShell {
    /// Makes the session for a shell that was just launched. There is a
    /// session only if the launcher started and both pipes were had.
    pub fn new(launch: Launch) -> (shell: Result<PkexecShell, ShellError>)
        ensures
            match shell {
                Ok(session) => model::launch_failure(launch@) is None && session@
                    == model::Session::Idle,
                Err(error) => model::launch_failure(launch@) == Some(error@),
            },
    {
        match launch {
            Launch::Refused(reason) => {
                let mut message = String::from_str("failed to start pkexec shell: ");
                message.append(reason.as_str());
                Err(ShellError::Spawn(message))
            },
            Launch::Started { stdin, stdout } => {
                if !stdin {
                    Err(ShellError::Spawn(String::from_str("failed to get stdin")))
                } else if !stdout {
                    Err(ShellError::Spawn(String::from_str("failed to get stdout")))
                } else {
                    Ok(PkexecShell { phase: Phase::Idle, request: Request::Run, output: String::new() })
                }
            },
        }
    }

    /// Whether no command is in flight.
    pub fn is_idle(&self) -> (idle: bool)
        ensures
            idle == (self@ == model::Session::Idle),
    {
        match self.phase {
            Phase::Idle => true,
            _ => false,
        }
    }

    fn submit(&mut self, request: Request, command: &str) -> (action: Action)
        ensures
            (final(self)@, action@) == model::submit(old(self)@, request, command@),
    {
        match self.phase {
            Phase::Idle => {
                self.phase = Phase::Sending;
                self.request = request;
                Action::Send(compose(command))
            },
            _ => Action::Finish(Err(ShellError::Busy)),
        }
    }

    /// Submits the command that a shell is tried with once it is launched.
    pub fn probe(&mut self) -> (action: Action)
        ensures
            (final(self)@, action@) == model::submit(
                old(self)@,
                Request::Run,
                model::probe_text(),
            ),
    {
        self.submit(Request::Run, ":")
    }

    /// Submits a command line to run in the shell.
    pub fn run_cmd(&mut self, cmd: &str) -> (action: Action)
        ensures
            (final(self)@, action@) == model::submit(old(self)@, Request::Run, cmd@),
    {
        self.submit(Request::Run, cmd)
    }

    /// Submits the listing of the rules of a chain.
    pub fn list_rules(&mut self, table: &str, chain: &str) -> (action: Action)
        ensures
            (final(self)@, action@) == model::submit(
                old(self)@,
                Request::List,
                list_text(table@, chain@),
            ),
    {
        let command = list_command(table, chain);
        self.submit(Request::List, command.as_str())
    }

    /// Submits the appending of a rule to a chain.
    pub fn add_rule(&mut self, table: &str, chain: &str, rule: &str) -> (action: Action)
        ensures
            (final(self)@, action@) == model::submit(
                old(self)@,
                Request::Add,
                add_text(table@, chain@, rule@),
            ),
    {
        let command = add_command(table, chain, rule);
        self.submit(Request::Add, command.as_str())
    }

    /// Submits the deleting of the rule at a line number of a chain.
    pub fn delete_rule(&mut self, table: &str, chain: &str, line: &str) -> (action: Action)
        ensures
            (final(self)@, action@) == model::submit(
                old(self)@,
                Request::Delete,
                delete_text(table@, chain@, line@),
            ),
    {
        let command = delete_command(table, chain, line);
        self.submit(Request::Delete, command.as_str())
    }

    fn take_output(&mut self) -> (output: String)
        ensures
            final(self)@ == model::Session::Idle,
            old(self)@ matches model::Session::Reading(_, gathered) ==> output@ == gathered,
    {
        let mut output = String::new();
        core::mem::swap(&mut self.output, &mut output);
        self.phase = Phase::Idle;
        output
    }

    fn finish(&mut self) -> (reply: Reply)
        requires
            old(self)@ is Reading,
        ensures
            final(self)@ == model::Session::Idle,
            old(self)@ matches model::Session::Reading(request, output) && reply@
                == model::reply_for(request, output),
    {
        let request = self.request;
        let output = self.take_output();
        match request {
            Request::Run => Reply::Text(output),
            Request::List => Reply::Rules(split_lines(output.as_str())),
            Request::Add => Reply::Done,
            Request::Delete => Reply::Done,
        }
    }

    fn fail(&mut self, error: ShellError) -> (action: Action)
        ensures
            final(self)@ == model::Session::Idle,
            action@ == model::Action::Finish(Err(error@)),
    {
        let _ = self.take_output();
        Action::Finish(Err(error))
    }

    /// Reports what happened at the pipes, and says what to do next.
    pub fn step(&mut self, event: Event) -> (action: Action)
        ensures
            (final(self)@, action@) == model::step(old(self)@, event@),
    {
        match self.phase {
            Phase::Idle => Action::Finish(Err(ShellError::OutOfTurn)),
            Phase::Sending => {
                match event {
                    Event::Written => {
                        self.phase = Phase::Reading;
                        self.output = String::new();
                        Action::ReadLine
                    },
                    Event::Failed(reason) => self.fail(ShellError::Io(reason)),
                    _ => self.fail(ShellError::OutOfTurn),
                }
            },
            Phase::Reading => {
                match event {
                    Event::Line(line) => {
                        if is_sentinel(&line) {
                            Action::Finish(Ok(self.finish()))
                        } else {
                            self.output.append(line.as_str());
                            self.output.push('\n');
                            Action::ReadLine
                        }
                    },
                    Event::Closed => self.fail(
                        ShellError::Io(
                            String::from_str("the shell closed its output before the command ended"),
                        ),
                    ),
                    Event::Failed(reason) => self.fail(ShellError::Io(reason)),
                    Event::Written => self.fail(ShellError::OutOfTurn),
                }
            },
        }
    }
}

} // verus!
