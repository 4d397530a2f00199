use vpn_connect::anyconnect::{AnyConnect, ConnectionResult};
use vpn_connect::command::{Invocation, ProcessOutcome};
use vpn_connect::config::Config;
use vpn_connect::error::ErrorKind;
use vpn_connect::onepassword::OnePassword;
use vpn_connect::orchestrator::{advance, exit_code, run, Stage, Step};

fn config() -> Config {
    Config {
        host: "vpn.example.com".to_string(),
        group: "CORP".to_string(),
        user: "alice".to_string(),
        pass_path: "op://vault/item".to_string(),
    }
}

fn exited(success: bool, stdout: &[u8]) -> ProcessOutcome {
    ProcessOutcome::Exited { success, stdout: stdout.to_vec() }
}

/// Plays a run against scripted outcomes: the commands that were asked
/// for, and the end of the run if the script reached it.
fn play(
    config: Config,
    script: Vec<ProcessOutcome>,
) -> (Vec<Invocation>, Option<Result<ConnectionResult, ErrorKind>>) {
    let mut commands = Vec::new();
    let mut step = run(config);
    let mut script = script.into_iter();
    loop {
        match step {
            Step::Done(result) => return (commands, Some(result)),
            Step::Run { command, stage } => {
                commands.push(command);
                match script.next() {
                    Some(outcome) => step = advance(stage, outcome),
                    None => return (commands, None),
                }
            }
        }
    }
}

#[test]
fn run_begins_by_signing_in() {
    assert!(
        run(config())
            == Step::Run { command: OnePassword::signin_command(), stage: Stage::SigningIn(config()) }
    );
}

#[test]
fn after_signing_in_the_secret_is_read() {
    assert!(
        advance(Stage::SigningIn(config()), exited(true, b""))
            == Step::Run {
            command: OnePassword::read_command("op://vault/item".to_string()),
            stage: Stage::ReadingSecret(AnyConnect {
                host: "vpn.example.com".to_string(),
                group: "CORP".to_string(),
                user: "alice".to_string(),
            }),
        }
    );
}

#[test]
fn after_the_secret_is_read_the_client_is_started() {
    let vpn = AnyConnect {
        host: "vpn.example.com".to_string(),
        group: "CORP".to_string(),
        user: "alice".to_string(),
    };
    let step = advance(Stage::ReadingSecret(vpn), exited(true, b"hunter2\n"));
    assert!(
        step
            == Step::Run {
            command: Invocation {
                program: "/opt/cisco/anyconnect/bin/vpn".to_string(),
                args: vec!["-s".to_string(), "connect".to_string(), "vpn.example.com".to_string()],
                input: Some("CORP\nalice\nhunter2\n".to_string()),
            },
            stage: Stage::Connecting,
        }
    );
}

#[test]
fn all_calls_succeed_and_the_output_is_reported() {
    let (commands, result) = play(
        config(),
        vec![exited(true, b""), exited(true, b"hunter2"), exited(true, b"state: Connected")],
    );
    assert_eq!(commands.len(), 3);
    assert!(commands[0] == OnePassword::signin_command());
    assert!(commands[1] == OnePassword::read_command("op://vault/item".to_string()));
    assert_eq!(commands[2].input, Some("CORP\nalice\nhunter2".to_string()));
    let result = result.unwrap();
    assert_eq!(result, Ok(ConnectionResult::Text("state: Connected".to_string())));
    assert_eq!(exit_code(&result), 0);
}

#[test]
fn failing_client_still_has_its_partial_output_reported_with_status_zero() {
    let (commands, result) = play(
        config(),
        vec![exited(true, b""), exited(true, b"hunter2"), exited(false, b"state: Connec")],
    );
    assert_eq!(commands.len(), 3);
    let result = result.unwrap();
    assert_eq!(result, Ok(ConnectionResult::Text("state: Connec".to_string())));
    assert_eq!(exit_code(&result), 0);
}

#[test]
fn failed_sign_in_ends_the_run_before_anything_else_is_run() {
    let (commands, result) = play(
        config(),
        vec![exited(false, b""), exited(true, b"hunter2"), exited(true, b"state: Connected")],
    );
    assert!(commands == vec![OnePassword::signin_command()]);
    let result = result.unwrap();
    assert_eq!(result, Err(ErrorKind::SignInFailed));
    assert_ne!(exit_code(&result), 0);
}

#[test]
fn failed_sign_in_is_final() {
    assert!(
        advance(Stage::SigningIn(config()), exited(false, b""))
            == Step::Done(Err(ErrorKind::SignInFailed))
    );
    assert!(
        advance(Stage::SigningIn(config()), ProcessOutcome::SpawnFailed)
            == Step::Done(Err(ErrorKind::SignInFailed))
    );
}

#[test]
fn unreadable_secret_ends_the_run_before_the_client_is_started() {
    for outcome in [exited(false, b"hunter2"), exited(true, b"\xff"), ProcessOutcome::SpawnFailed] {
        let (commands, result) =
            play(config(), vec![exited(true, b""), outcome, exited(true, b"state: Connected")]);
        assert_eq!(commands.len(), 2);
        let result = result.unwrap();
        assert_eq!(result, Err(ErrorKind::SecretReadFailed));
        assert_eq!(exit_code(&result), 1);
    }
}

#[test]
fn client_that_cannot_be_spawned_surfaces_a_spawn_error() {
    let (commands, result) = play(
        config(),
        vec![exited(true, b""), exited(true, b"hunter2"), ProcessOutcome::SpawnFailed],
    );
    assert_eq!(commands.len(), 3);
    assert_eq!(commands[2].program, "/opt/cisco/anyconnect/bin/vpn");
    let result = result.unwrap();
    assert_eq!(result, Err(ErrorKind::ProcessSpawnFailed));
    assert_ne!(exit_code(&result), 0);
}

#[test]
fn client_write_and_wait_failures_end_the_run() {
    assert!(
        advance(Stage::Connecting, ProcessOutcome::WriteFailed)
            == Step::Done(Err(ErrorKind::WriteFailed))
    );
    assert!(
        advance(Stage::Connecting, ProcessOutcome::WaitFailed)
            == Step::Done(Err(ErrorKind::WaitFailed))
    );
}

#[test]
fn run_waits_where_the_script_ends() {
    let (commands, result) = play(config(), vec![exited(true, b"")]);
    assert_eq!(commands.len(), 2);
    assert_eq!(result, None);
}

#[test]
fn undecodable_client_output_is_still_a_good_end() {
    let (_, result) = play(
        config(),
        vec![exited(true, b""), exited(true, b"hunter2"), exited(true, b"\xfe\xff")],
    );
    let result = result.unwrap();
    assert_eq!(result, Ok(ConnectionResult::Undecodable(vec![0xfe, 0xff])));
    assert_eq!(exit_code(&result), 0);
}
