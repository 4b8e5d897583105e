use sysy_judge::config::{greeting, AppState, Cli, Config};
use sysy_judge::location::test_command;

#[test]
fn the_configuration_file_defaults_to_the_working_directory() {
    assert_eq!(Cli::default_path(), Cli { config: "./config.json".to_string() });
}

#[test]
fn the_test_script_runs_on_the_configured_repository() {
    let state = AppState {
        cli: Cli::default_path(),
        config: Config { repo: "git@example.org:team/compiler.git".to_string() },
    };
    let line = state.test_command("dev", "deadbeef");
    assert_eq!(line, test_command("git@example.org:team/compiler.git", "dev", "deadbeef"));
    assert_eq!(line.command, "./test.sh");
    assert_eq!(line.args, vec!["git@example.org:team/compiler.git", "dev", "deadbeef"]);
}

#[test]
fn a_visitor_is_greeted_by_name() {
    assert_eq!(greeting("world"), "Hello, world!");
    assert_eq!(greeting(""), "Hello, !");
}
