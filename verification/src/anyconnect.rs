//! The Cisco AnyConnect command-line client: how it is started, what is
//! typed at its three prompts, and what is made of its output.

use vstd::prelude::*;
use vstd::string::StringExecFns;

use crate::command::{texts, Invocation, InvocationView, ProcessOutcome, ProcessOutcomeView};
use crate::error::ErrorKind;
use crate::text::{decode, spec_decode};

verus! {

/// A connection to make: the gateway, and the answers to the client's
/// first two prompts.
#[derive(Clone, Debug, PartialEq, Eq)]
pub struct AnyConnect {
    /// The VPN gateway.
    pub host: String,
    /// The answer to the group prompt.
    pub group: String,
    /// The answer to the username prompt.
    pub user: String,
}

/// An [`AnyConnect`] as three texts.
pub struct AnyConnectView {
    pub host: Seq<char>,
    pub group: Seq<char>,
    pub user: Seq<char>,
}

impl View for AnyConnect {
    type V = AnyConnectView;

    open spec fn view(&self) -> AnyConnectView {
        AnyConnectView { host: self.host@, group: self.group@, user: self.user@ }
    }
}

/// What the client printed while it ran.
#[derive(Clone, Debug, PartialEq, Eq)]
pub enum ConnectionResult {
    /// The output, read as UTF-8.
    Text(String),
    /// The output as it came, where it is no well-formed UTF-8.
    Undecodable(Vec<u8>),
}

/// A [`ConnectionResult`] as a text or a sequence of bytes.
pub enum ConnectionResultView {
    Text(Seq<char>),
    Undecodable(Seq<u8>),
}

impl View for ConnectionResult {
    type V = ConnectionResultView;

    open spec fn view(&self) -> ConnectionResultView {
        match self {
            ConnectionResult::Text(text) => ConnectionResultView::Text(text@),
            ConnectionResult::Undecodable(bytes) => ConnectionResultView::Undecodable(bytes@),
        }
    }
}

impl AnyConnectView {
    /// Group, user and secret, with one line feed between each two and
    /// none added at the end.
    pub open spec fn payload(self, secret: Seq<char>) -> Seq<char> {
        self.group + seq!['\n'] + self.user + seq!['\n'] + secret
    }

    /// The client, asked to connect to the host and to take its answers
    /// from its standard input, which is fed the payload.
    pub open spec fn connect_command(self, secret: Seq<char>) -> InvocationView {
        InvocationView {
            program: "/opt/cisco/anyconnect/bin/vpn"@,
            args: seq!["-s"@, "connect"@, self.host],
            input: Some(self.payload(secret)),
        }
    }
}

impl AnyConnect {
    /// What is written to the client's standard input: the answers to its
    /// three prompts, group, user and password, in that order.
    pub fn payload(&self, secret: &str) -> (content: String)
        ensures
            content@ == self@.payload(secret@),
    {
        proof {
            reveal_strlit("\n");
        }
        let mut content = self.group.clone();
        content.append("\n");
        content.append(self.user.as_str());
        content.append("\n");
        content.append(secret);
        content
    }

    /// The command that makes the connection with `secret` as the
    /// password.
    pub fn connect_command(&self, secret: &str) -> (command: Invocation)
        ensures
            command@ == self@.connect_command(secret@),
    {
        let mut args: Vec<String> = Vec::new();
        args.push(String::from_str("-s"));
        args.push(String::from_str("connect"));
        args.push(self.host.clone());
        assert(texts(args@) =~= seq!["-s"@, "connect"@, self.host@]);
        Invocation {
            program: String::from_str("/opt/cisco/anyconnect/bin/vpn"),
            args,
            input: Some(self.payload(secret)),
        }
    }

    /// Each way in which the client may fail to run has its own error.
    /// Once it has run to its end its output is the result, whatever
    /// status it ended with.
    pub open spec fn spec_connect(outcome: ProcessOutcomeView) -> Result<
        ConnectionResultView,
        ErrorKind,
    > {
        match outcome {
            ProcessOutcomeView::SpawnFailed => Err(ErrorKind::ProcessSpawnFailed),
            ProcessOutcomeView::WriteFailed => Err(ErrorKind::WriteFailed),
            ProcessOutcomeView::WaitFailed => Err(ErrorKind::WaitFailed),
            ProcessOutcomeView::Exited { stdout, .. } => Ok(
                match spec_decode(stdout) {
                    Some(text) => ConnectionResultView::Text(text),
                    None => ConnectionResultView::Undecodable(stdout),
                },
            ),
        }
    }

    /// Judges what [`connect_command`](Self::connect_command) came to. The
    /// client's exit status is not looked at: a client that ended with a
    /// failure status has its output reported like any other.
    pub fn connect(outcome: ProcessOutcome) -> (result: Result<ConnectionResult, ErrorKind>)
        ensures
            match result {
                Ok(output) => Self::spec_connect(outcome@) == Ok::<
                    ConnectionResultView,
                    ErrorKind,
                >(output@),
                Err(e) => Self::spec_connect(outcome@) == Err::<ConnectionResultView, ErrorKind>(e),
            },
    {
        match outcome {
            ProcessOutcome::SpawnFailed => Err(ErrorKind::ProcessSpawnFailed),
            ProcessOutcome::WriteFailed => Err(ErrorKind::WriteFailed),
            ProcessOutcome::WaitFailed => Err(ErrorKind::WaitFailed),
            ProcessOutcome::Exited { success: _, stdout } => match decode(stdout.as_slice()) {
                Some(text) => Ok(ConnectionResult::Text(text)),
                None => Ok(ConnectionResult::Undecodable(stdout)),
            },
        }
    }
}

} // verus!
