//! The wire format spoken with the shell: a command is written as one line
//! that ends by echoing a marker, and the shell's answer is read line by line
//! until that marker comes back.

use vstd::prelude::*;

verus! {

/// The marker line that ends the output of every command.
pub open spec fn sentinel() -> Seq<char> {
    "END_OF_CMD"@
}

/// The line written to the shell for `command`: the command, then an `echo`
/// of the marker, then a line feed.
pub open spec fn command_line(command: Seq<char>) -> Seq<char> {
    (command + "; echo "@ + sentinel()).push('\n')
}

/// Builds the line to write to the shell for `command`.
pub fn compose(command: &str) -> (line: String)
    ensures
        line@ == command_line(command@),
{
    let mut line = String::from_str(command);
    line.append("; echo ");
    line.append("END_OF_CMD");
    line.push('\n');
    line
}

/// Whether a line read from the shell is the marker: the whole line, exactly.
pub fn is_sentinel(line: &String) -> (found: bool)
    ensures
        found == (line@ == sentinel()),
{
    let marker = String::from_str("END_OF_CMD");
    *line == marker
}

} // verus!
