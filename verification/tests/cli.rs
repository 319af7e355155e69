use hydra_umc_twin::cli::{find_flag, parse_command, serve_address, Command};

fn args(list: &[&str]) -> Vec<String> {
    list.iter().map(|s| s.to_string()).collect()
}

#[test]
fn flag_value_is_the_next_argument() {
    let a = args(&["--workspace", "/tmp/ws", "--port", "9000"]);
    assert_eq!(find_flag(&a, "--workspace"), Some("/tmp/ws".to_string()));
    assert_eq!(find_flag(&a, "--port"), Some("9000".to_string()));
    assert_eq!(find_flag(&a, "--addr"), None);
}

#[test]
fn flag_at_the_end_has_no_value_and_first_occurrence_wins() {
    assert_eq!(find_flag(&args(&["x", "--workspace"]), "--workspace"), None);
    let a = args(&["--workspace", "a", "--workspace", "b"]);
    assert_eq!(find_flag(&a, "--workspace"), Some("a".to_string()));
    assert_eq!(find_flag(&args(&[]), "--workspace"), None);
}

#[test]
fn subcommands_are_recognised() {
    assert_eq!(parse_command(&args(&[])), Command::Identity);
    assert_eq!(parse_command(&args(&["family-status"])), Command::FamilyStatus);
    assert_eq!(
        parse_command(&args(&["family-sync", "--workspace", "x"])),
        Command::FamilySync
    );
    assert_eq!(parse_command(&args(&["serve"])), Command::Serve);
    assert_eq!(parse_command(&args(&["status"])), Command::Identity);
}

#[test]
fn serve_address_defaults_and_overrides() {
    assert_eq!(serve_address(&args(&[])), "127.0.0.1:8111");
    assert_eq!(serve_address(&args(&["--port", "9000"])), "127.0.0.1:9000");
    assert_eq!(
        serve_address(&args(&["--addr", "0.0.0.0", "--port", "80"])),
        "0.0.0.0:80"
    );
}
