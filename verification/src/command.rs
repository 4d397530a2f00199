//! Programs to run and what running them came to, as plain values: the
//! library says what is to be run, its caller runs it and reports back.

use vstd::prelude::*;

verus! {

/// The texts that a list of strings holds, in order.
pub open spec fn texts(strings: Seq<String>) -> Seq<Seq<char>> {
    strings.map_values(|s: String| s@)
}

/// One program to run to its end, with its standard output captured.
///
/// The input may hold the secret, so the type has no `Debug`: a value of
/// it cannot end up in a log by way of a format string.
#[derive(PartialEq, Eq)]
pub struct Invocation {
    /// The executable, by name or path.
    pub program: String,
    /// Its arguments, without the program's name.
    pub args: Vec<String>,
    /// With `Some`, the program's standard input is a pipe: the text is
    /// written to it in one piece and the pipe is then closed, so that the
    /// program sees the end of its input. With `None` nothing is written
    /// to the program.
    pub input: Option<String>,
}

/// An [`Invocation`] as texts.
pub struct InvocationView {
    pub program: Seq<char>,
    pub args: Seq<Seq<char>>,
    pub input: Option<Seq<char>>,
}

impl View for Invocation {
    type V = InvocationView;

    open spec fn view(&self) -> InvocationView {
        InvocationView {
            program: self.program@,
            args: texts(self.args@),
            input: match self.input {
                Some(text) => Some(text@),
                None => None,
            },
        }
    }
}

/// What became of one [`Invocation`].
///
/// The output of `op read` is the secret, so this type has no `Debug`
/// either.
#[derive(PartialEq, Eq)]
pub enum ProcessOutcome {
    /// The program could not be started.
    SpawnFailed,
    /// The program started, but the input could not be written to it.
    WriteFailed,
    /// The program started, but its end could not be awaited.
    WaitFailed,
    /// The program ran to its end.
    Exited {
        /// Whether it ended with status zero.
        success: bool,
        /// All that it wrote to its standard output.
        stdout: Vec<u8>,
    },
}

/// A [`ProcessOutcome`] with the output as a sequence of bytes.
pub enum ProcessOutcomeView {
    SpawnFailed,
    WriteFailed,
    WaitFailed,
    Exited { success: bool, stdout: Seq<u8> },
}

impl View for ProcessOutcome {
    type V = ProcessOutcomeView;

    open spec fn view(&self) -> ProcessOutcomeView {
        match self {
            ProcessOutcome::SpawnFailed => ProcessOutcomeView::SpawnFailed,
            ProcessOutcome::WriteFailed => ProcessOutcomeView::WriteFailed,
            ProcessOutcome::WaitFailed => ProcessOutcomeView::WaitFailed,
            ProcessOutcome::Exited { success, stdout } => ProcessOutcomeView::Exited {
                success: *success,
                stdout: stdout@,
            },
        }
    }
}

} // verus!
