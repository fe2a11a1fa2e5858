//! The session as a state machine over plain values. A session answers every
//! command and every event with the one thing to do next; whoever holds the
//! pipes does it and reports back what happened.

use crate::protocol::{command_line, sentinel};
use crate::text::{joined, lines_of};
use vstd::prelude::*;

verus! {

/// What a command is run for, which decides what its caller gets back.
#[derive(Clone, Copy, Debug, PartialEq, Eq)]
pub enum Request {
    /// Any command line; its output comes back as text.
    Run,
    /// A rule listing; its output comes back cut into lines.
    List,
    /// Appending a rule; nothing comes back but that it was done.
    Add,
    /// Deleting a rule; nothing comes back but that it was done.
    Delete,
}

/// Why a session could not be had, or a command did not finish.
pub enum Failure {
    /// The shell could not be started, or one of its pipes could not be had.
    Spawn(Seq<char>),
    /// Writing to the shell or reading from it failed, or the shell's output
    /// ended before the marker had come.
    Io(Seq<char>),
    /// A command was submitted while another was still in flight.
    Busy,
    /// An event was reported that does not answer what the session asked for.
    OutOfTurn,
}

/// What a finished command hands to its caller.
pub enum Reply {
    /// All that the command printed, each line followed by a line feed.
    Text(Seq<char>),
    /// The lines of a rule listing.
    Rules(Seq<Seq<char>>),
    /// The command ran.
    Done,
}

/// What happened at the pipes.
pub enum Event {
    /// The line was written and flushed.
    Written,
    /// One line was read; it comes without its line ending.
    Line(Seq<char>),
    /// The shell's output ended: the shell is gone, or has closed its pipe.
    Closed,
    /// The write, the flush or the read failed.
    Failed(Seq<char>),
}

/// What to do next at the pipes.
pub enum Action {
    /// Write this text to the shell's input and flush it.
    Send(Seq<char>),
    /// Read one line from the shell's output.
    ReadLine,
    /// Nothing more: hand this to the caller.
    Finish(Result<Reply, Failure>),
}

/// How starting the shell went.
pub enum Launch {
    /// The launcher could not be started; the text says why.
    Refused(Seq<char>),
    /// The launcher runs; each flag says whether that pipe could be had.
    Started { stdin: bool, stdout: bool },
}

/// Where a session stands.
pub enum Session {
    /// No command is in flight.
    Idle,
    /// A command line was handed out and is being written.
    Sending(Request),
    /// The command is with the shell; the text is what it has printed so far,
    /// each line followed by a line feed.
    Reading(Request, Seq<char>),
}

/// Why a launch gives no session, if it gives none: the launcher did not
/// start, or the pipe to its input is missing, or the pipe from its output.
pub open spec fn launch_failure(launch: Launch) -> Option<Failure> {
    match launch {
        Launch::Refused(reason) => Some(
            Failure::Spawn("failed to start pkexec shell: "@ + reason),
        ),
        Launch::Started { stdin, stdout } => if !stdin {
            Some(Failure::Spawn("failed to get stdin"@))
        } else if !stdout {
            Some(Failure::Spawn("failed to get stdout"@))
        } else {
            None
        },
    }
}

/// The command that a shell is tried with once it is launched: it does
/// nothing and prints nothing.
pub open spec fn probe_text() -> Seq<char> {
    ":"@
}

/// Why a launch has failed after all, given what came of the first command,
/// if it has: a launcher that is denied starts no shell, and shows it only by
/// the failure of that command. The launch is then refused for that failure.
pub open spec fn probe_failure(first: Result<Reply, Failure>) -> Option<Failure> {
    match first {
        Ok(_) => None,
        Err(failure) => launch_failure(Launch::Refused(message(failure))),
    }
}

/// What the caller of a finished command gets, given all that the command
/// printed.
pub open spec fn reply_for(request: Request, output: Seq<char>) -> Reply {
    match request {
        Request::Run => Reply::Text(output),
        Request::List => Reply::Rules(lines_of(output)),
        Request::Add => Reply::Done,
        Request::Delete => Reply::Done,
    }
}

/// A failure in words, as a caller is shown it. What the launcher or the pipes
/// reported is shown as it came.
pub open spec fn message(failure: Failure) -> Seq<char> {
    match failure {
        Failure::Spawn(text) => text,
        Failure::Io(text) => text,
        Failure::Busy => "the shell is busy with another command"@,
        Failure::OutOfTurn => "the shell was not waiting for this event"@,
    }
}

/// A reply as one text, as a caller is shown it: the lines of a listing are
/// joined by line feeds.
pub open spec fn shown(reply: Reply) -> Seq<char> {
    match reply {
        Reply::Text(text) => text,
        Reply::Rules(lines) => joined(lines),
        Reply::Done => Seq::empty(),
    }
}

/// What a caller is told where the shell's output ends in the middle of a
/// command.
pub open spec fn closed_output() -> Seq<char> {
    "the shell closed its output before the command ended"@
}

/// Submitting a command. An idle session takes it and asks for its line to be
/// written. A session with a command in flight refuses it and stays as it is.
pub open spec fn submit(session: Session, request: Request, command: Seq<char>) -> (
    Session,
    Action,
) {
    match session {
        Session::Idle => (Session::Sending(request), Action::Send(command_line(command))),
        _ => (session, Action::Finish(Err(Failure::Busy))),
    }
}

/// Reporting an event. Once the line is written the session reads. Every line
/// but the marker is added to the output, with a line feed, and the session
/// reads on; the marker finishes the command, and only the marker does. A
/// failure ends the command with that failure. So does the end of the shell's
/// output while the session reads: the command has failed, and nothing of
/// what was read until then is handed on. An event that does not answer what
/// the session asked for ends the command as out of turn.
pub open spec fn step(session: Session, event: Event) -> (Session, Action) {
    match session {
        Session::Idle => (Session::Idle, Action::Finish(Err(Failure::OutOfTurn))),
        Session::Sending(request) => match event {
            Event::Written => (Session::Reading(request, Seq::empty()), Action::ReadLine),
            Event::Failed(reason) => (Session::Idle, Action::Finish(Err(Failure::Io(reason)))),
            _ => (Session::Idle, Action::Finish(Err(Failure::OutOfTurn))),
        },
        Session::Reading(request, output) => match event {
            Event::Line(line) => if line == sentinel() {
                (Session::Idle, Action::Finish(Ok(reply_for(request, output))))
            } else {
                (Session::Reading(request, (output + line).push('\n')), Action::ReadLine)
            },
            Event::Closed => (Session::Idle, Action::Finish(Err(Failure::Io(closed_output())))),
            Event::Failed(reason) => (Session::Idle, Action::Finish(Err(Failure::Io(reason)))),
            Event::Written => (Session::Idle, Action::Finish(Err(Failure::OutOfTurn))),
        },
    }
}

/// One thing done at pipes whose writes and reads do not fail, and reported to
/// the session: the line is written; or a line is read from `stream`, which
/// holds the lines that the shell prints from now on; or, where none is left,
/// the shell's output has ended. The result is where the session stands then,
/// what it asks for next, and the lines that are still to come.
pub open spec fn carry_out(session: Session, action: Action, stream: Seq<Seq<char>>) -> (
    Session,
    Action,
    Seq<Seq<char>>,
) {
    match action {
        Action::Finish(_) => (session, action, stream),
        Action::Send(_) => {
            let (next, then) = step(session, Event::Written);
            (next, then, stream)
        },
        Action::ReadLine => if stream.len() == 0 {
            let (next, then) = step(session, Event::Closed);
            (next, then, stream)
        } else {
            let (next, then) = step(session, Event::Line(stream[0]));
            (next, then, stream.skip(1))
        },
    }
}

/// One command carried to its end: whatever the session asks for is carried
/// out, until it asks for nothing more. The result is where the session
/// stands after it, what the caller gets, and the lines that were not read.
pub open spec fn drive(session: Session, action: Action, stream: Seq<Seq<char>>) -> (
    Session,
    Result<Reply, Failure>,
    Seq<Seq<char>>,
)
    decreases stream.len(), steps_left(action),
{
    match action {
        Action::Finish(outcome) => (session, outcome, stream),
        _ => {
            let (next, then, left) = carry_out(session, action, stream);
            drive(next, then, left)
        },
    }
}

/// How far an action is from the end of its command, as long as no line is
/// read: a write is followed by reads, a read at the end of the stream by the
/// end of the command.
pub open spec fn steps_left(action: Action) -> nat {
    match action {
        Action::Send(_) => 2,
        Action::ReadLine => 1,
        Action::Finish(_) => 0,
    }
}

/// Commands served one after the other by one session over one pipe: each is
/// submitted when the one before it has finished, and reads on where that one
/// stopped. The result holds what each caller gets, in the order of the
/// commands.
pub open spec fn serve_in_turn(
    session: Session,
    commands: Seq<(Request, Seq<char>)>,
    stream: Seq<Seq<char>>,
) -> Seq<Result<Reply, Failure>>
    decreases commands.len(),
{
    if commands.len() == 0 {
        Seq::empty()
    } else {
        let (started, action) = submit(session, commands[0].0, commands[0].1);
        let (next, outcome, rest) = drive(started, action, stream);
        seq![outcome] + serve_in_turn(next, commands.skip(1), rest)
    }
}

/// What the shell prints for a run of commands: the lines of each, and after
/// them the marker.
pub open spec fn printed(outputs: Seq<Seq<Seq<char>>>) -> Seq<Seq<char>>
    decreases outputs.len(),
{
    if outputs.len() == 0 {
        Seq::empty()
    } else {
        outputs[0].push(sentinel()) + printed(outputs.skip(1))
    }
}

/// Commands and outputs as they come where the callers are served in the
/// order `order`: the item at each place is that of the caller named there.
pub open spec fn arranged<T>(items: Seq<T>, order: Seq<int>) -> Seq<T> {
    Seq::new(order.len(), |j: int| items[order[j]])
}

/// Commands submitted one after the other by callers that do not hold the
/// session: where it stands after them, and what each was answered.
pub open spec fn attempts(session: Session, batch: Seq<(Request, Seq<char>)>) -> (
    Session,
    Seq<Action>,
)
    decreases batch.len(),
{
    if batch.len() == 0 {
        (session, Seq::empty())
    } else {
        let (held, earlier) = attempts(session, batch.drop_last());
        let (next, answer) = submit(held, batch.last().0, batch.last().1);
        (next, earlier.push(answer))
    }
}

/// One command carried to its end while other callers keep submitting
/// commands of their own: before each thing that is done at the pipes, the
/// next batch of `others` is submitted. The result is that of the command,
/// as `drive` gives it, and what the others were answered, batch by batch.
/// Batches that are left when the command has finished are not submitted.
pub open spec fn drive_among(
    session: Session,
    action: Action,
    stream: Seq<Seq<char>>,
    others: Seq<Seq<(Request, Seq<char>)>>,
) -> ((Session, Result<Reply, Failure>, Seq<Seq<char>>), Seq<Seq<Action>>)
    decreases others.len(),
{
    if others.len() == 0 || action is Finish {
        (drive(session, action, stream), Seq::empty())
    } else {
        let (held, answers) = attempts(session, others[0]);
        let (next, then, left) = carry_out(held, action, stream);
        let (end, later) = drive_among(next, then, left, others.skip(1));
        (end, seq![answers] + later)
    }
}

} // verus!
