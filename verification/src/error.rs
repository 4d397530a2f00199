//! The ways in which a run can fail, and what the user is told of each.

use vstd::prelude::*;
use vstd::string::StringExecFns;

verus! {

/// Why a run stopped before the VPN client had been heard out.
#[derive(Clone, Copy, Debug, PartialEq, Eq, Structural)]
pub enum ErrorKind {
    /// Fewer than four values followed the program's name.
    InsufficientArguments,
    /// `op signin` did not end with status zero.
    SignInFailed,
    /// `op read` did not run, did not end with status zero, or printed
    /// bytes that are no UTF-8.
    SecretReadFailed,
    /// The VPN client could not be started.
    ProcessSpawnFailed,
    /// The answers could not be written to the VPN client's input.
    WriteFailed,
    /// The VPN client's end could not be awaited.
    WaitFailed,
}

impl ErrorKind {
    /// The sentence that describes this failure.
    pub open spec fn spec_message(self) -> Seq<char> {
        match self {
            ErrorKind::InsufficientArguments => "Not enough arguments."@,
            ErrorKind::SignInFailed => "1Password biometric signin failed. To enable biometric unlock, navigate to  Developer Settings in the 1Password app and select \"Biometric Unlock for 1Password CLI\"."@,
            ErrorKind::SecretReadFailed => "couldn't read the secret from 1Password"@,
            ErrorKind::ProcessSpawnFailed => "couldn't spawn process"@,
            ErrorKind::WriteFailed => "couldn't write to stdin"@,
            ErrorKind::WaitFailed => "failed to read output"@,
        }
    }

    /// What introduces the sentence on the error stream: a failure to
    /// parse the arguments is announced differently from the others.
    pub open spec fn spec_prefix(self) -> Seq<char> {
        match self {
            ErrorKind::InsufficientArguments => "Problem parsing arguments: "@,
            _ => "Application error: "@,
        }
    }

    /// The line written to the error stream when the run fails with `self`.
    pub open spec fn spec_report(self) -> Seq<char> {
        self.spec_prefix() + self.spec_message()
    }

    /// The sentence that describes this failure.
    pub fn message(&self) -> (text: String)
        ensures
            text@ == self.spec_message(),
    {
        match self {
            ErrorKind::InsufficientArguments => String::from_str("Not enough arguments."),
            ErrorKind::SignInFailed => String::from_str(
                "1Password biometric signin failed. To enable biometric unlock, navigate to  Developer Settings in the 1Password app and select \"Biometric Unlock for 1Password CLI\".",
            ),
            ErrorKind::SecretReadFailed => String::from_str(
                "couldn't read the secret from 1Password",
            ),
            ErrorKind::ProcessSpawnFailed => String::from_str("couldn't spawn process"),
            ErrorKind::WriteFailed => String::from_str("couldn't write to stdin"),
            ErrorKind::WaitFailed => String::from_str("failed to read output"),
        }
    }

    /// The line written to the error stream when the run fails with `self`.
    pub fn report(&self) -> (line: String)
        ensures
            line@ == self.spec_report(),
    {
        let prefix = match self {
            ErrorKind::InsufficientArguments => String::from_str("Problem parsing arguments: "),
            _ => String::from_str("Application error: "),
        };
        let text = self.message();
        prefix.concat(text.as_str())
    }
}

} // verus!
