//! The run as a whole: sign in, read the secret, connect. The library
//! decides what is to be run next and when the run is over; its caller
//! runs each command and comes back with what became of it.

use vstd::prelude::*;

use crate::anyconnect::{AnyConnect, AnyConnectView, ConnectionResult, ConnectionResultView};
use crate::command::{Invocation, InvocationView, ProcessOutcome, ProcessOutcomeView};
use crate::config::{Config, ConfigView};
use crate::error::ErrorKind;
use crate::onepassword::OnePassword;

verus! {

/// Which command's outcome the run is waiting for, with what is still
/// needed once it is known.
#[derive(Debug, PartialEq, Eq)]
pub enum Stage {
    /// `op signin` is running.
    SigningIn(Config),
    /// `op read` is running.
    ReadingSecret(AnyConnect),
    /// The VPN client is running.
    Connecting,
}

/// A [`Stage`] over texts.
pub enum StageView {
    SigningIn(ConfigView),
    ReadingSecret(AnyConnectView),
    Connecting,
}

impl View for Stage {
    type V = StageView;

    open spec fn view(&self) -> StageView {
        match self {
            Stage::SigningIn(config) => StageView::SigningIn(config@),
            Stage::ReadingSecret(vpn) => StageView::ReadingSecret(vpn@),
            Stage::Connecting => StageView::Connecting,
        }
    }
}

/// What the caller is to do next. Like the [`Invocation`] that it may
/// hold, it has no `Debug`.
#[derive(PartialEq, Eq)]
pub enum Step {
    /// Run `command`, then hand its outcome and `stage` to [`advance`].
    Run { command: Invocation, stage: Stage },
    /// The run is over: print the client's output and leave with status
    /// zero, or report the error and leave with a failure status.
    Done(Result<ConnectionResult, ErrorKind>),
}

/// A [`Step`] over texts.
pub enum StepView {
    Run { command: InvocationView, stage: StageView },
    Done(Result<ConnectionResultView, ErrorKind>),
}

impl View for Step {
    type V = StepView;

    open spec fn view(&self) -> StepView {
        match self {
            Step::Run { command, stage } => StepView::Run { command: command@, stage: stage@ },
            Step::Done(result) => StepView::Done(result_view(*result)),
        }
    }
}

/// The end of a run over texts.
pub open spec fn result_view(result: Result<ConnectionResult, ErrorKind>) -> Result<
    ConnectionResultView,
    ErrorKind,
> {
    match result {
        Ok(output) => Ok(output@),
        Err(e) => Err(e),
    }
}

/// A run begins by signing in.
pub open spec fn spec_run(config: ConfigView) -> StepView {
    StepView::Run {
        command: OnePassword::spec_signin_command(),
        stage: StageView::SigningIn(config),
    }
}

/// The step that follows once the command of `stage` has come to
/// `outcome`. Any failure ends the run; nothing is tried twice.
pub open spec fn spec_advance(stage: StageView, outcome: ProcessOutcomeView) -> StepView {
    match stage {
        StageView::SigningIn(config) => match OnePassword::spec_sign_in(outcome) {
            Ok(_) => StepView::Run {
                command: OnePassword::spec_read_command(config.pass_path),
                stage: StageView::ReadingSecret(
                    AnyConnectView { host: config.host, group: config.group, user: config.user },
                ),
            },
            Err(e) => StepView::Done(Err(e)),
        },
        StageView::ReadingSecret(vpn) => match OnePassword::spec_read(outcome) {
            Ok(secret) => StepView::Run {
                command: vpn.connect_command(secret),
                stage: StageView::Connecting,
            },
            Err(e) => StepView::Done(Err(e)),
        },
        StageView::Connecting => StepView::Done(AnyConnect::spec_connect(outcome)),
    }
}

/// The status that the process leaves with: zero after the client has
/// been heard out, one after any error.
pub open spec fn spec_exit_code(result: Result<ConnectionResultView, ErrorKind>) -> int {
    match result {
        Ok(_) => 0,
        Err(_) => 1,
    }
}

/// Begins a run with `config`.
pub fn run(config: Config) -> (step: Step)
    ensures
        step@ == spec_run(config@),
{
    Step::Run { command: OnePassword::signin_command(), stage: Stage::SigningIn(config) }
}

/// Goes on with the run after the command of `stage` has come to
/// `outcome`.
pub fn advance(stage: Stage, outcome: ProcessOutcome) -> (step: Step)
    ensures
        step@ == spec_advance(stage@, outcome@),
{
    match stage {
        Stage::SigningIn(config) => match OnePassword::sign_in(&outcome) {
            Ok(_) => {
                let Config { host, group, user, pass_path } = config;
                Step::Run {
                    command: OnePassword::read_command(pass_path),
                    stage: Stage::ReadingSecret(AnyConnect { host, group, user }),
                }
            },
            Err(e) => Step::Done(Err(e)),
        },
        Stage::ReadingSecret(vpn) => match OnePassword::read(&outcome) {
            Ok(secret) => Step::Run {
                command: vpn.connect_command(secret.as_str()),
                stage: Stage::Connecting,
            },
            Err(e) => Step::Done(Err(e)),
        },
        Stage::Connecting => Step::Done(AnyConnect::connect(outcome)),
    }
}

/// The status to leave the process with once the run is over.
pub fn exit_code(result: &Result<ConnectionResult, ErrorKind>) -> (code: i32)
    ensures
        code == spec_exit_code(result_view(*result)),
{
    match result {
        Ok(_) => 0,
        Err(_) => 1,
    }
}

/// What a caller sees of a run: the commands it was told to run, in
/// order, and the end of the run if it came to one.
pub struct Trace {
    pub commands: Seq<InvocationView>,
    pub result: Option<Result<ConnectionResultView, ErrorKind>>,
}

/// The trace of a caller that stands at `step` and finds its commands to
/// come to `outcomes`, one after the other. Outcomes left over when the
/// run is done are never looked at; where they run out first, the last
/// command of the trace is still waiting for its outcome.
pub open spec fn spec_trace(step: StepView, outcomes: Seq<ProcessOutcomeView>) -> Trace
    decreases outcomes.len(),
{
    match step {
        StepView::Done(result) => Trace { commands: seq![], result: Some(result) },
        StepView::Run { command, stage } => if outcomes.len() == 0 {
            Trace { commands: seq![command], result: None }
        } else {
            let rest = spec_trace(spec_advance(stage, outcomes[0]), outcomes.drop_first());
            Trace { commands: seq![command] + rest.commands, result: rest.result }
        },
    }
}

/// The commands of a run come in one order, each only after the one
/// before it has succeeded: `op signin` first, then `op read` with the
/// configured reference, then the VPN client with the configured group
/// and user and the secret that was read. Nothing is run a second time
/// and nothing else is ever run.
pub proof fn lemma_commands_in_order(config: ConfigView, outcomes: Seq<ProcessOutcomeView>)
    ensures
        ({
            let trace = spec_trace(spec_run(config), outcomes);
            let vpn = AnyConnectView { host: config.host, group: config.group, user: config.user };
            &&& 1 <= trace.commands.len() <= 3
            &&& trace.commands.len() <= outcomes.len() + 1
            &&& trace.commands[0] == OnePassword::spec_signin_command()
            &&& trace.commands.len() >= 2 ==> {
                &&& OnePassword::spec_sign_in(outcomes[0]) is Ok
                &&& trace.commands[1] == OnePassword::spec_read_command(config.pass_path)
            }
            &&& trace.commands.len() == 3 ==> {
                &&& OnePassword::spec_read(outcomes[1]) matches Ok(secret)
                &&& trace.commands[2] == vpn.connect_command(secret)
            }
        }),
{
    reveal_with_fuel(spec_trace, 4);
}

/// A sign-in that fails ends the run at once, with `SignInFailed` and a
/// failure status: `op signin` is the only command of that run, so the
/// secret is never read and the VPN client never started, whatever the
/// outcomes that might have followed.
pub proof fn lemma_failed_sign_in_ends_run(config: ConfigView, outcomes: Seq<ProcessOutcomeView>)
    requires
        outcomes.len() >= 1,
        !(outcomes[0] matches ProcessOutcomeView::Exited { success: true, .. }),
    ensures
        spec_trace(spec_run(config), outcomes).commands == seq![
            OnePassword::spec_signin_command(),
        ],
        spec_trace(spec_run(config), outcomes).result == Some(
            Err::<ConnectionResultView, ErrorKind>(ErrorKind::SignInFailed),
        ),
        spec_exit_code(Err(ErrorKind::SignInFailed)) != 0,
{
    reveal_with_fuel(spec_trace, 3);
}

/// A secret that cannot be read ends the run with `SecretReadFailed` and
/// a failure status before the VPN client is started.
pub proof fn lemma_failed_read_ends_run(config: ConfigView, outcomes: Seq<ProcessOutcomeView>)
    requires
        outcomes.len() >= 2,
        OnePassword::spec_sign_in(outcomes[0]) is Ok,
        OnePassword::spec_read(outcomes[1]) is Err,
    ensures
        spec_trace(spec_run(config), outcomes).commands == seq![
            OnePassword::spec_signin_command(),
            OnePassword::spec_read_command(config.pass_path),
        ],
        spec_trace(spec_run(config), outcomes).result == Some(
            Err::<ConnectionResultView, ErrorKind>(ErrorKind::SecretReadFailed),
        ),
        spec_exit_code(Err(ErrorKind::SecretReadFailed)) != 0,
{
    reveal_with_fuel(spec_trace, 4);
}

/// A VPN client that cannot be started ends the run with
/// `ProcessSpawnFailed` and a failure status. The client was the third
/// and last command: the run did not go past the attempt to connect.
pub proof fn lemma_spawn_failure_ends_run(config: ConfigView, outcomes: Seq<ProcessOutcomeView>)
    requires
        outcomes.len() >= 3,
        OnePassword::spec_sign_in(outcomes[0]) is Ok,
        OnePassword::spec_read(outcomes[1]) is Ok,
        outcomes[2] is SpawnFailed,
    ensures
        spec_trace(spec_run(config), outcomes).commands.len() == 3,
        spec_trace(spec_run(config), outcomes).result == Some(
            Err::<ConnectionResultView, ErrorKind>(ErrorKind::ProcessSpawnFailed),
        ),
        spec_exit_code(Err(ErrorKind::ProcessSpawnFailed)) != 0,
{
    reveal_with_fuel(spec_trace, 5);
}

/// Once the VPN client has run to its end, the run ends well: its result
/// is what the client printed and its status is zero, whether the client
/// itself ended with status zero or not.
pub proof fn lemma_client_status_ignored(
    config: ConfigView,
    outcomes: Seq<ProcessOutcomeView>,
    success: bool,
    stdout: Seq<u8>,
)
    requires
        outcomes.len() >= 3,
        OnePassword::spec_sign_in(outcomes[0]) is Ok,
        OnePassword::spec_read(outcomes[1]) is Ok,
        outcomes[2] == (ProcessOutcomeView::Exited { success, stdout }),
    ensures
        spec_trace(spec_run(config), outcomes).result == Some(
            AnyConnect::spec_connect(ProcessOutcomeView::Exited { success: true, stdout }),
        ),
        spec_trace(spec_run(config), outcomes).result matches Some(result) && result is Ok
            && spec_exit_code(result) == 0,
{
    reveal_with_fuel(spec_trace, 5);
}

} // verus!
