//! What holds of every session, whatever commands it is given and whatever
//! the shell prints.

use crate::firewall::{add_text, list_text};
use crate::model::{
    arranged, attempts, carry_out, closed_output, drive, drive_among, printed, probe_failure, probe_text,
    reply_for, serve_in_turn, step, submit, Action, Event, Failure, Reply, Request, Session,
};
use crate::protocol::{command_line, sentinel};
use crate::text::{is_plain_line, lemma_lines_of_render, lemma_render_first, lines_of, render};
use vstd::prelude::*;

verus! {

/// A session that reads takes every line up to the marker, and the marker,
/// and leaves what the shell prints after it.
proof fn lemma_reads_to_the_marker(
    request: Request,
    gathered: Seq<char>,
    lines: Seq<Seq<char>>,
    rest: Seq<Seq<char>>,
)
    requires
        forall|i: int| 0 <= i < lines.len() ==> lines[i] != sentinel(),
    ensures
        drive(
            Session::Reading(request, gathered),
            Action::ReadLine,
            lines.push(sentinel()) + rest,
        ) == (Session::Idle, Ok::<Reply, Failure>(reply_for(request, gathered + render(lines))), rest),
    decreases lines.len(),
{
    let stream = lines.push(sentinel()) + rest;
    reveal_with_fuel(drive, 2);
    if lines.len() > 0 {
        let tail = lines.skip(1);
        let next = (gathered + lines[0]).push('\n');
        assert(stream.skip(1) == tail.push(sentinel()) + rest);
        lemma_reads_to_the_marker(request, next, tail, rest);
        lemma_render_first(lines);
        assert(next + render(tail) == gathered + render(lines));
    }
}

/// A session that reads and never meets the marker fails when the shell's
/// output ends, whatever it has gathered by then.
proof fn lemma_reads_to_the_end(request: Request, gathered: Seq<char>, lines: Seq<Seq<char>>)
    requires
        forall|i: int| 0 <= i < lines.len() ==> lines[i] != sentinel(),
    ensures
        drive(Session::Reading(request, gathered), Action::ReadLine, lines) == (
            Session::Idle,
            Err::<Reply, Failure>(Failure::Io(closed_output())),
            Seq::<Seq<char>>::empty(),
        ),
    decreases lines.len(),
{
    reveal_with_fuel(drive, 2);
    if lines.len() > 0 {
        lemma_reads_to_the_end(request, (gathered + lines[0]).push('\n'), lines.skip(1));
    }
}

/// A command whose output holds no marker line comes back with exactly that
/// output, each line followed by a line feed, and nothing of the marker. The
/// session asks for the command's line to be written, reads up to the marker
/// and no further, and is idle again.
pub proof fn lemma_command_returns_its_output(
    request: Request,
    command: Seq<char>,
    lines: Seq<Seq<char>>,
    rest: Seq<Seq<char>>,
)
    requires
        forall|i: int| 0 <= i < lines.len() ==> lines[i] != sentinel(),
    ensures
        submit(Session::Idle, request, command) == (
            Session::Sending(request),
            Action::Send(command_line(command)),
        ),
        drive(
            Session::Sending(request),
            Action::Send(command_line(command)),
            lines.push(sentinel()) + rest,
        ) == (Session::Idle, Ok::<Reply, Failure>(reply_for(request, render(lines))), rest),
{
    lemma_reads_to_the_marker(request, Seq::empty(), lines, rest);
}

/// Where the shell's output ends before the marker has come, the command
/// fails: whatever it is run for, its caller gets the failure and nothing of
/// what the shell printed until then, and the session is idle again.
pub proof fn lemma_closed_output_fails_the_command(
    request: Request,
    command: Seq<char>,
    lines: Seq<Seq<char>>,
)
    requires
        forall|i: int| 0 <= i < lines.len() ==> lines[i] != sentinel(),
    ensures
        drive(Session::Sending(request), Action::Send(command_line(command)), lines) == (
            Session::Idle,
            Err::<Reply, Failure>(Failure::Io(closed_output())),
            Seq::<Seq<char>>::empty(),
        ),
{
    lemma_reads_to_the_end(request, Seq::empty(), lines);
}

/// A shell that is there answers the first command with the marker, and the
/// launch stands. A launcher that was denied has started no shell: its output
/// ends without the marker, and the launch is refused.
pub proof fn lemma_probe_settles_the_launch(lines: Seq<Seq<char>>, rest: Seq<Seq<char>>)
    requires
        forall|i: int| 0 <= i < lines.len() ==> lines[i] != sentinel(),
    ensures
        ({
            let (started, action) = submit(Session::Idle, Request::Run, probe_text());
            &&& probe_failure(drive(started, action, lines.push(sentinel()) + rest).1) is None
            &&& probe_failure(drive(started, action, lines).1) == Some(
                Failure::Spawn("failed to start pkexec shell: "@ + closed_output()),
            )
        }),
{
    lemma_command_returns_its_output(Request::Run, probe_text(), lines, rest);
    lemma_closed_output_fails_the_command(Request::Run, probe_text(), lines);
}

/// A listing comes back as the very lines that the shell printed, in their
/// order, where each is a line as a text holds it and none is the marker.
pub proof fn lemma_listing_returns_the_lines(
    table: Seq<char>,
    chain: Seq<char>,
    lines: Seq<Seq<char>>,
    rest: Seq<Seq<char>>,
)
    requires
        forall|i: int| 0 <= i < lines.len() ==> is_plain_line(#[trigger] lines[i]),
        forall|i: int| 0 <= i < lines.len() ==> lines[i] != sentinel(),
    ensures
        ({
            let (started, action) = submit(Session::Idle, Request::List, list_text(table, chain));
            drive(started, action, lines.push(sentinel()) + rest) == (
                Session::Idle,
                Ok::<Reply, Failure>(Reply::Rules(lines)),
                rest,
            )
        }),
{
    lemma_command_returns_its_output(Request::List, list_text(table, chain), lines, rest);
    lemma_lines_of_render(lines);
}

/// The marker is no line of what a command gives back, where the shell
/// printed lines as a text holds them and none of them was the marker.
pub proof fn lemma_marker_is_no_line_of_the_output(
    command: Seq<char>,
    lines: Seq<Seq<char>>,
    rest: Seq<Seq<char>>,
)
    requires
        forall|i: int| 0 <= i < lines.len() ==> is_plain_line(#[trigger] lines[i]),
        forall|i: int| 0 <= i < lines.len() ==> lines[i] != sentinel(),
    ensures
        ({
            let (started, action) = submit(Session::Idle, Request::Run, command);
            let outcome = drive(started, action, lines.push(sentinel()) + rest).1;
            &&& outcome matches Ok(Reply::Text(output))
            &&& forall|i: int| 0 <= i < lines_of(output).len() ==> lines_of(output)[i] != sentinel()
        }),
{
    lemma_command_returns_its_output(Request::Run, command, lines, rest);
    lemma_lines_of_render(lines);
}

/// Commands served one after the other over one pipe do not mix: however
/// many they are, each comes back with its own output and with no line of
/// another's.
pub proof fn lemma_commands_in_turn(
    commands: Seq<(Request, Seq<char>)>,
    outputs: Seq<Seq<Seq<char>>>,
)
    requires
        commands.len() == outputs.len(),
        forall|k: int, i: int|
            0 <= k < outputs.len() && 0 <= i < outputs[k].len() ==> outputs[k][i] != sentinel(),
    ensures
        serve_in_turn(Session::Idle, commands, printed(outputs)).len() == commands.len(),
        forall|k: int|
            0 <= k < commands.len() ==> #[trigger] serve_in_turn(
                Session::Idle,
                commands,
                printed(outputs),
            )[k] == Ok::<Reply, Failure>(reply_for(commands[k].0, render(outputs[k]))),
    decreases commands.len(),
{
    if commands.len() > 0 {
        let later = commands.skip(1);
        let rest = outputs.skip(1);
        assert forall|k: int, i: int| 0 <= k < rest.len() && 0 <= i < rest[k].len() implies rest[k][i]
            != sentinel() by {
            assert(rest[k] == outputs[k + 1]);
        }
        lemma_commands_in_turn(later, rest);
        lemma_command_returns_its_output(commands[0].0, commands[0].1, outputs[0], printed(rest));
    }
}

/// In whatever order callers come to be served, each gets the output of its
/// own command: the caller served at a place gets what the shell printed for
/// the command it submitted there, and no line printed for another.
pub proof fn lemma_commands_in_any_order(
    commands: Seq<(Request, Seq<char>)>,
    outputs: Seq<Seq<Seq<char>>>,
    order: Seq<int>,
)
    requires
        commands.len() == outputs.len(),
        forall|k: int, i: int|
            0 <= k < outputs.len() && 0 <= i < outputs[k].len() ==> outputs[k][i] != sentinel(),
        forall|j: int| 0 <= j < order.len() ==> 0 <= #[trigger] order[j] < commands.len(),
    ensures
        ({
            let served = serve_in_turn(
                Session::Idle,
                arranged(commands, order),
                printed(arranged(outputs, order)),
            );
            &&& served.len() == order.len()
            &&& forall|j: int|
                0 <= j < order.len() ==> #[trigger] served[j] == Ok::<Reply, Failure>(
                    reply_for(commands[order[j]].0, render(outputs[order[j]])),
                )
        }),
{
    lemma_commands_in_turn(arranged(commands, order), arranged(outputs, order));
}

/// While a command is in flight no other gets in: a command submitted then is
/// refused as busy, and the session stays as it was.
pub proof fn lemma_in_flight_refuses(session: Session, request: Request, command: Seq<char>)
    requires
        session != Session::Idle,
    ensures
        submit(session, request, command) == (session, Action::Finish(Err(Failure::Busy))),
{
}

/// However many commands other callers submit while one is in flight, each
/// is refused as busy, and the session stays as it was.
pub proof fn lemma_attempts_are_refused(session: Session, batch: Seq<(Request, Seq<char>)>)
    requires
        session != Session::Idle,
    ensures
        attempts(session, batch).0 == session,
        attempts(session, batch).1.len() == batch.len(),
        forall|i: int|
            0 <= i < batch.len() ==> #[trigger] attempts(session, batch).1[i] == Action::Finish(
                Err(Failure::Busy),
            ),
    decreases batch.len(),
{
    if batch.len() > 0 {
        lemma_attempts_are_refused(session, batch.drop_last());
    }
}

/// A command in flight is not disturbed by callers that do not hold the
/// session: whenever and however often they submit commands of their own
/// before it has finished, every one of them is refused as busy, and the
/// command ends as if no one had come, with the same result and the same
/// lines left unread.
pub proof fn lemma_others_do_not_get_in(
    session: Session,
    action: Action,
    stream: Seq<Seq<char>>,
    others: Seq<Seq<(Request, Seq<char>)>>,
)
    requires
        session != Session::Idle,
        !(action is Finish),
    ensures
        drive_among(session, action, stream, others).0 == drive(session, action, stream),
        ({
            let answers = drive_among(session, action, stream, others).1;
            forall|b: int, i: int|
                0 <= b < answers.len() && 0 <= i < answers[b].len() ==> answers[b][i]
                    == Action::Finish(Err(Failure::Busy))
        }),
    decreases others.len(),
{
    if others.len() > 0 {
        lemma_attempts_are_refused(session, others[0]);
        let (next, then, left) = carry_out(session, action, stream);
        if !(then is Finish) {
            lemma_others_do_not_get_in(next, then, left, others.skip(1));
        }
        let answers = drive_among(session, action, stream, others).1;
        let later = drive_among(next, then, left, others.skip(1)).1;
        assert forall|b: int, i: int| 0 <= b < answers.len() && 0 <= i < answers[b].len() implies answers[b][i]
            == Action::Finish(Err(Failure::Busy)) by {
            if b > 0 {
                assert(answers[b] == later[b - 1]);
            }
        }
    }
}

/// A failure at the pipes ends the command that is in flight, wherever it
/// stands: the caller gets the failure, nothing more is read, and the session
/// is idle again.
pub proof fn lemma_failure_ends_the_command(
    session: Session,
    reason: Seq<char>,
    stream: Seq<Seq<char>>,
)
    requires
        session != Session::Idle,
    ensures
        ({
            let (next, action) = step(session, Event::Failed(reason));
            &&& action == Action::Finish(Err(Failure::Io(reason)))
            &&& drive(next, action, stream) == (
                Session::Idle,
                Err::<Reply, Failure>(Failure::Io(reason)),
                stream,
            )
        }),
{
}

/// A rule appended twice is sent twice: a session that has served an append
/// asks for the very same line to be written when the same append comes
/// again.
pub proof fn lemma_same_command_is_sent_again(
    table: Seq<char>,
    chain: Seq<char>,
    rule: Seq<char>,
    lines: Seq<Seq<char>>,
    rest: Seq<Seq<char>>,
)
    requires
        forall|i: int| 0 <= i < lines.len() ==> lines[i] != sentinel(),
    ensures
        ({
            let command = add_text(table, chain, rule);
            let (started, first) = submit(Session::Idle, Request::Add, command);
            let (served, outcome, _) = drive(started, first, lines.push(sentinel()) + rest);
            let (again, second) = submit(served, Request::Add, command);
            &&& first == Action::Send(command_line(command))
            &&& outcome == Ok::<Reply, Failure>(Reply::Done)
            &&& second == first
            &&& again == started
        }),
{
    lemma_command_returns_its_output(Request::Add, add_text(table, chain, rule), lines, rest);
}

} // verus!
