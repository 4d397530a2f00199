//! The 1Password command-line client `op`: how it is asked to sign in and
//! to read a secret, and what its answers mean.

use vstd::prelude::*;
use vstd::string::StringExecFns;

use crate::command::{texts, Invocation, InvocationView, ProcessOutcome, ProcessOutcomeView};
use crate::error::ErrorKind;
use crate::text::{decode, spec_decode};

verus! {

/// The credential store. It keeps no state: every question is a new run
/// of `op`, and nothing that was read is remembered.
pub struct OnePassword {}

impl OnePassword {
    /// `op signin`, without arguments and without input.
    pub open spec fn spec_signin_command() -> InvocationView {
        InvocationView { program: "op"@, args: seq!["signin"@], input: None }
    }

    /// The command that signs the user in.
    pub fn signin_command() -> (command: Invocation)
        ensures
            command@ == Self::spec_signin_command(),
    {
        let mut args: Vec<String> = Vec::new();
        args.push(String::from_str("signin"));
        assert(texts(args@) =~= seq!["signin"@]);
        Invocation { program: String::from_str("op"), args, input: None }
    }

    /// Signing in has succeeded when `op signin` ran to its end with status
    /// zero, and in no other case.
    pub open spec fn spec_sign_in(outcome: ProcessOutcomeView) -> Result<(), ErrorKind> {
        match outcome {
            ProcessOutcomeView::Exited { success: true, .. } => Ok(()),
            _ => Err(ErrorKind::SignInFailed),
        }
    }

    /// Judges what [`signin_command`](Self::signin_command) came to. What
    /// the program printed plays no part.
    pub fn sign_in(outcome: &ProcessOutcome) -> (result: Result<(), ErrorKind>)
        ensures
            result == Self::spec_sign_in(outcome@),
    {
        match outcome {
            ProcessOutcome::Exited { success: true, .. } => Ok(()),
            _ => Err(ErrorKind::SignInFailed),
        }
    }

    /// `op read` with the reference as its one argument.
    pub open spec fn spec_read_command(path: Seq<char>) -> InvocationView {
        InvocationView { program: "op"@, args: seq!["read"@, path], input: None }
    }

    /// The command that prints the secret kept under `path`. The reference
    /// is handed on as it is.
    pub fn read_command(path: String) -> (command: Invocation)
        ensures
            command@ == Self::spec_read_command(path@),
    {
        let mut args: Vec<String> = Vec::new();
        args.push(String::from_str("read"));
        args.push(path);
        assert(texts(args@) =~= seq!["read"@, path@]);
        Invocation { program: String::from_str("op"), args, input: None }
    }

    /// The secret is all that `op read` printed, provided that it ran to
    /// its end with status zero and printed well-formed UTF-8.
    pub open spec fn spec_read(outcome: ProcessOutcomeView) -> Result<Seq<char>, ErrorKind> {
        match outcome {
            ProcessOutcomeView::Exited { success: true, stdout } => match spec_decode(stdout) {
                Some(secret) => Ok(secret),
                None => Err(ErrorKind::SecretReadFailed),
            },
            _ => Err(ErrorKind::SecretReadFailed),
        }
    }

    /// Takes the secret from what [`read_command`](Self::read_command) came
    /// to. The output is the secret byte for byte: a final line break that
    /// `op` printed belongs to it.
    pub fn read(outcome: &ProcessOutcome) -> (result: Result<String, ErrorKind>)
        ensures
            match result {
                Ok(secret) => Self::spec_read(outcome@) == Ok::<Seq<char>, ErrorKind>(secret@),
                Err(e) => Self::spec_read(outcome@) == Err::<Seq<char>, ErrorKind>(e),
            },
    {
        match outcome {
            ProcessOutcome::Exited { success: true, stdout } => match decode(stdout.as_slice()) {
                Some(secret) => Ok(secret),
                None => Err(ErrorKind::SecretReadFailed),
            },
            _ => Err(ErrorKind::SecretReadFailed),
        }
    }
}

} // verus!
