use irgsh_cli::config::{init_outcome, load_outcome, Config, InitOutcome, LoadError};
use irgsh_cli::dispatch::submit_preamble;
use irgsh_cli::paths::{config_paths_for_home, resolve_config_paths};

#[test]
fn fresh_init_writes_the_supplied_fields() {
    let new = Config::new(
        "http://chief".to_string(),
        "key-1".to_string(),
        "/home/u/.irgsh/irgsh.yaml".to_string(),
    );
    match init_outcome(new, false, false) {
        InitOutcome::Written { config, message } => {
            assert_eq!(config.chief_url, "http://chief");
            assert_eq!(config.maintainer_key, "key-1");
            assert_eq!(
                config.config_file_path,
                "/home/u/.irgsh/irgsh.yaml"
            );
            assert_eq!(
                message,
                "Successfully sets the chief address to http://chief. Now you can use irgsh-cli. Happy Hacking"
            );
        }
        InitOutcome::Declined => panic!("a fresh init must write"),
    }
}

#[test]
fn declined_overwrite_writes_nothing() {
    let new = Config::new("http://new".to_string(), "k2".to_string(), "c".to_string());
    assert!(matches!(
        init_outcome(new, true, false),
        InitOutcome::Declined
    ));
}

#[test]
fn confirmed_overwrite_writes_the_new_values() {
    let new = Config::new("http://new".to_string(), "k2".to_string(), "c".to_string());
    match init_outcome(new, true, true) {
        InitOutcome::Written { config, .. } => {
            assert_eq!(config.chief_url, "http://new");
            assert_eq!(config.maintainer_key, "k2");
        }
        InitOutcome::Declined => panic!("a confirmed overwrite must write"),
    }
}

#[test]
fn loading_a_missing_file_is_not_found() {
    match load_outcome(false, None) {
        Err(LoadError::NotFound) => {}
        _ => panic!("an absent file must be NotFound"),
    }
    // Whatever parsing would have said, absence wins.
    let c = Config::new("u".to_string(), "k".to_string(), "p".to_string());
    assert!(matches!(load_outcome(false, Some(c)), Err(LoadError::NotFound)));
}

#[test]
fn loading_an_unparsable_file_is_corrupt() {
    assert!(matches!(load_outcome(true, None), Err(LoadError::Corrupt)));
}

#[test]
fn loading_a_parsed_record_returns_it() {
    let c = Config::new("http://chief".to_string(), "k".to_string(), "p".to_string());
    match load_outcome(true, Some(c)) {
        Ok(loaded) => {
            assert_eq!(loaded.chief_url, "http://chief");
            assert_eq!(loaded.maintainer_key, "k");
            assert_eq!(loaded.config_file_path, "p");
        }
        Err(_) => panic!("a parsed record must load"),
    }
}

#[test]
fn config_paths_follow_the_home_directory() {
    let paths = config_paths_for_home("/home/u");
    assert_eq!(paths.dir, "/home/u/.irgsh");
    assert_eq!(paths.file, "/home/u/.irgsh/irgsh.yaml");
}

#[test]
fn resolved_paths_lie_under_one_home() {
    if let Some(paths) = resolve_config_paths() {
        assert!(paths.dir.ends_with("/.irgsh"));
        assert!(paths.file.ends_with("/.irgsh/irgsh.yaml"));
        let home_from_dir = &paths.dir[..paths.dir.len() - "/.irgsh".len()];
        let home_from_file = &paths.file[..paths.file.len() - "/.irgsh/irgsh.yaml".len()];
        assert_eq!(home_from_dir, home_from_file);
    }
}

#[test]
fn preamble_skips_empty_urls() {
    let config = Config::new("http://chief".to_string(), "k".to_string(), "c".to_string());
    let lines = submit_preamble(&config, "S", "P", "http://chief/api/v1/submit");
    assert_eq!(
        lines,
        vec![
            "Chief       : http://chief".to_string(),
            "Source URL  : S".to_string(),
            "Package URL : P".to_string(),
            "Submit URL  : http://chief/api/v1/submit".to_string(),
        ]
    );
    let lines = submit_preamble(&config, "", "P", "http://chief/api/v1/submit");
    assert_eq!(
        lines,
        vec![
            "Chief       : http://chief".to_string(),
            "Package URL : P".to_string(),
            "Submit URL  : http://chief/api/v1/submit".to_string(),
        ]
    );
}
