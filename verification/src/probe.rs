//! Probe commands, what executing one can report, and how a report becomes a
//! value or a failure.

use crate::error::ProbeErrorView;
use crate::text::trimmed;
use vstd::prelude::*;
use vstd::utf8::{decode_utf8, valid_utf8};

verus! {

/// An external command together with its fixed argument list.
#[derive(Debug, PartialEq, Eq)]
pub struct ProbeCommand {
    pub program: String,
    pub args: Vec<String>,
}

/// Mathematical form of a [`ProbeCommand`].
pub struct ProbeCommandView {
    pub program: Seq<char>,
    pub args: Seq<Seq<char>>,
}

impl View for ProbeCommand {
    type V = ProbeCommandView;

    open spec fn view(&self) -> ProbeCommandView {
        ProbeCommandView { program: self.program@, args: self.args.deep_view() }
    }
}

/// What the operating system reported about one attempt to execute a command.
#[derive(Debug, PartialEq, Eq)]
pub enum Execution {
    /// The command could not be launched.
    SpawnFailed { reason: String },
    /// The process ran and ended. `code` is its exit code, `None` when it
    /// ended without one; `stdout` is everything it wrote to standard output.
    Completed { code: Option<i32>, stdout: Vec<u8> },
}

/// Mathematical form of an [`Execution`].
pub enum ExecutionView {
    SpawnFailed { reason: Seq<char> },
    Completed { code: Option<i32>, stdout: Seq<u8> },
}

impl View for Execution {
    type V = ExecutionView;

    open spec fn view(&self) -> ExecutionView {
        match *self {
            Execution::SpawnFailed { reason } => ExecutionView::SpawnFailed { reason: reason@ },
            Execution::Completed { code, stdout } => ExecutionView::Completed {
                code,
                stdout: stdout@,
            },
        }
    }
}

impl DeepView for Execution {
    type V = ExecutionView;

    open spec fn deep_view(&self) -> ExecutionView {
        self@
    }
}

/// Whether an exit code reports success: the process exited, and with zero.
pub open spec fn is_success(code: Option<i32>) -> bool {
    code == Some(0i32)
}

/// The value or failure that the execution `execution` of `command` amounts to.
///
/// The checks apply in a fixed order: launch, exit status, encoding, emptiness.
/// A value is the decoded standard output without surrounding whitespace, and
/// is never empty.
pub open spec fn run_spec(command: Seq<char>, execution: ExecutionView) -> Result<
    Seq<char>,
    ProbeErrorView,
> {
    match execution {
        ExecutionView::SpawnFailed { reason } => Err(
            ProbeErrorView::SpawnFailure { command, reason },
        ),
        ExecutionView::Completed { code, stdout } => {
            if !is_success(code) {
                Err(ProbeErrorView::NonZeroExit { command, code })
            } else if !valid_utf8(stdout) {
                Err(ProbeErrorView::InvalidEncoding { command })
            } else if trimmed(decode_utf8(stdout)).len() == 0 {
                Err(ProbeErrorView::EmptyOutput { command })
            } else {
                Ok(trimmed(decode_utf8(stdout)))
            }
        },
    }
}

} // verus!
