use irgsh_cli::dispatch::{dispatch, submit_report, Command, Step};

const MISSING: &str = "Error: unable to read config file. Please initialize the irgsh-cli first. See --help for further information.";

#[test]
fn commands_before_init_fail_with_code_one() {
    let commands = vec![
        Command::Submit {
            package_url: "P".to_string(),
            source_url: "S".to_string(),
        },
        Command::Status {
            pipeline_id: "42".to_string(),
        },
        Command::Watch {
            pipeline_id: "42".to_string(),
        },
    ];
    for cmd in commands {
        match dispatch(cmd, false) {
            Step::Emit { message, exit_code } => {
                assert_eq!(exit_code, 1);
                assert_eq!(message, MISSING);
            }
            _ => panic!("a command without configuration must terminate, not proceed"),
        }
    }
}

#[test]
fn no_subcommand_prints_usage_with_code_zero() {
    match dispatch(Command::NoCommand, false) {
        Step::Emit { message, exit_code } => {
            assert_eq!(exit_code, 0);
            assert_eq!(
                message,
                "\nPlease run by a subcommand. See --help for further information."
            );
        }
        _ => panic!("the bare invocation must only print usage"),
    }
    match dispatch(Command::NoCommand, true) {
        Step::Emit { exit_code, .. } => assert_eq!(exit_code, 0),
        _ => panic!("the bare invocation must only print usage"),
    }
}

#[test]
fn init_always_proceeds() {
    let cmd = Command::Init {
        chief_url: "http://x".to_string(),
        maintainer_key: "k".to_string(),
    };
    assert!(matches!(dispatch(cmd, false), Step::DoInit));
    let cmd = Command::Init {
        chief_url: "http://x".to_string(),
        maintainer_key: "k".to_string(),
    };
    assert!(matches!(dispatch(cmd, true), Step::DoInit));
}

#[test]
fn submit_with_config_proceeds() {
    let cmd = Command::Submit {
        package_url: "P".to_string(),
        source_url: "S".to_string(),
    };
    assert!(matches!(dispatch(cmd, true), Step::DoSubmit));
}

#[test]
fn status_and_watch_echo_the_pipeline_id() {
    let status = dispatch(
        Command::Status {
            pipeline_id: "abc123".to_string(),
        },
        true,
    );
    match status {
        Step::Emit { message, exit_code } => {
            assert_eq!(exit_code, 0);
            assert_eq!(message, "Status of PipelineID: abc123");
        }
        _ => panic!("status must emit its line"),
    }
    let watch = dispatch(
        Command::Watch {
            pipeline_id: "abc123".to_string(),
        },
        true,
    );
    match watch {
        Step::Emit { message, exit_code } => {
            assert_eq!(exit_code, 0);
            assert_eq!(message, "Watching PipelineID: abc123");
        }
        _ => panic!("watch must emit its line"),
    }
}

#[test]
fn transport_failure_is_distinguishable_from_success() {
    let ok = submit_report(Ok("{\"echo\":true}".to_string()));
    assert_eq!(ok.exit_code, 0);
    assert_eq!(ok.message, "{\"echo\":true}");
    let failed = submit_report(Err("connection refused".to_string()));
    assert_eq!(failed.exit_code, 1);
    assert_eq!(
        failed.message,
        "Error: the submit request failed: connection refused"
    );
    assert_ne!(ok.exit_code, failed.exit_code);
}
