use dailylog::config::{
    default_branch, default_log_dir, default_summary_days, load_config, ConfigError, ConfigFile,
};

fn no_keys() -> ConfigFile {
    ConfigFile {
        log_dir: None,
        git_repo: None,
        git_auto_sync: None,
        git_branch_name: None,
        summary_days: None,
    }
}

#[test]
fn defaults_exact_values() {
    assert_eq!(default_branch(), "master");
    assert_eq!(
        default_summary_days(),
        vec!["monday", "tuesday", "wednesday", "thursday", "friday"]
    );
    assert_eq!(default_log_dir(Some("/home/user")), "/home/user/.dailylog");
    assert_eq!(default_log_dir(None), ".dailylog");
}

#[test]
fn missing_file_gives_defaults() {
    let config = load_config(Some("/home/u"), None).expect("the home directory is known");
    assert_eq!(config.log_dir, "/home/u/.dailylog");
    assert_eq!(config.git_repo, None);
    assert_eq!(config.git_auto_sync, None);
    assert_eq!(config.git_branch_name, "master");
    assert_eq!(
        config.summary_days,
        vec!["monday", "tuesday", "wednesday", "thursday", "friday"]
    );
}

#[test]
fn file_without_keys_gives_defaults() {
    let config = load_config(Some("/h"), Some(no_keys())).expect("the home directory is known");
    assert_eq!(config.log_dir, "/h/.dailylog");
    assert_eq!(config.git_branch_name, "master");
    assert_eq!(config.summary_days.len(), 5);
}

#[test]
fn keys_of_the_file_win() {
    let file = ConfigFile {
        log_dir: Some("/data/logs".to_string()),
        git_repo: Some("https://example.org/r.git".to_string()),
        git_auto_sync: Some(true),
        git_branch_name: Some("main".to_string()),
        summary_days: Some(vec!["sat".to_string()]),
    };
    let config = load_config(Some("/h"), Some(file)).expect("the home directory is known");
    assert_eq!(config.log_dir, "/data/logs");
    assert_eq!(config.git_repo, Some("https://example.org/r.git".to_string()));
    assert_eq!(config.git_auto_sync, Some(true));
    assert_eq!(config.git_branch_name, "main");
    assert_eq!(config.summary_days, vec!["sat"]);
}

#[test]
fn no_home_directory_is_an_error() {
    assert!(matches!(load_config(None, None), Err(ConfigError::NoHomeDirectory)));
    assert!(matches!(load_config(None, Some(no_keys())), Err(ConfigError::NoHomeDirectory)));
}
