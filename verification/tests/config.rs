use vpn_connect::config::Config;
use vpn_connect::error::ErrorKind;

fn strings(items: &[&str]) -> Vec<String> {
    items.iter().map(|s| s.to_string()).collect()
}

#[test]
fn build_takes_entries_one_to_four() {
    let args = strings(&["prog", "vpn.example.com", "CORP", "alice", "op://vault/item"]);
    let config = Config::build(&args).unwrap();
    assert_eq!(config.host, "vpn.example.com");
    assert_eq!(config.group, "CORP");
    assert_eq!(config.user, "alice");
    assert_eq!(config.pass_path, "op://vault/item");
}

#[test]
fn build_fails_on_empty_vector() {
    assert_eq!(Config::build(&[]), Err(ErrorKind::InsufficientArguments));
}

#[test]
fn build_fails_on_program_name_alone() {
    let args = strings(&["prog"]);
    assert_eq!(Config::build(&args), Err(ErrorKind::InsufficientArguments));
}

#[test]
fn build_fails_on_three_values() {
    let args = strings(&["prog", "vpn.example.com", "CORP", "alice"]);
    assert_eq!(Config::build(&args), Err(ErrorKind::InsufficientArguments));
}

#[test]
fn build_fails_on_every_length_below_five() {
    let all = strings(&["prog", "h", "g", "u", "p"]);
    for n in 0..5 {
        assert_eq!(Config::build(&all[..n]), Err(ErrorKind::InsufficientArguments));
    }
    assert!(Config::build(&all).is_ok());
}

#[test]
fn build_ignores_entries_beyond_the_fifth() {
    let args = strings(&["prog", "h", "g", "u", "p", "extra", "more"]);
    let config = Config::build(&args).unwrap();
    assert_eq!(
        config,
        Config {
            host: "h".to_string(),
            group: "g".to_string(),
            user: "u".to_string(),
            pass_path: "p".to_string(),
        }
    );
}

#[test]
fn build_does_not_inspect_the_values() {
    let args = strings(&["", "", " not a host ", "a\nb", "\u{e9}\u{4e16}"]);
    let config = Config::build(&args).unwrap();
    assert_eq!(config.host, "");
    assert_eq!(config.group, " not a host ");
    assert_eq!(config.user, "a\nb");
    assert_eq!(config.pass_path, "\u{e9}\u{4e16}");
}

#[test]
fn build_leaves_the_arguments_as_they_were() {
    let args = strings(&["prog", "h", "g", "u", "p"]);
    let before = args.clone();
    let _ = Config::build(&args);
    assert_eq!(args, before);
}
