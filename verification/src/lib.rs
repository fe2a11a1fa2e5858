//! Firewall rules through one elevated shell.
//!
//! An application that changes `iptables` rules needs root for every command.
//! Rather than ask for it each time, it starts one interactive shell through
//! `pkexec` and keeps it: commands are written to the shell's input, one line
//! each, and each line ends by echoing a marker, so that the end of a
//! command's output can be told in the shell's output.
//!
//! This library is the part of that which decides. It does no input or
//! output of its own. [`firewall::PkexecShell`] is the session: it is told
//! which command to run and what happened at the pipes, and says what to do
//! there next and, in the end, what the command's caller gets. [`model`]
//! holds the same session over plain values, [`protocol`] and [`text`] the
//! line format, and [`laws`] what follows for whole commands and runs of
//! commands.

pub mod firewall;
pub mod laws;
pub mod model;
pub mod protocol;
pub mod text;
