use minigrep::Config;
use minigrep::ConfigError;

fn tokens(words: &[&str]) -> Vec<String> {
    let mut v: Vec<String> = Vec::new();
    for w in words {
        v.push(w.to_string());
    }
    v
}

fn expect_error(args: &Vec<String>, env: Option<&str>) -> ConfigError {
    match Config::from(args, env) {
        Ok(_) => panic!("expected a configuration error"),
        Err(e) => e,
    }
}

#[test]
fn resolves_flag_and_positionals() {
    let args = tokens(&["prog", "-i", "needle", "haystack.txt"]);
    let config = Config::from(&args, None).unwrap();
    assert_eq!(config.query, "needle");
    assert_eq!(config.file_path, "haystack.txt");
    assert!(config.ignore_case);
}

#[test]
fn resolves_long_flag() {
    let args = tokens(&["prog", "--ignore-case", "needle", "haystack.txt"]);
    let config = Config::from(&args, None).unwrap();
    assert!(config.ignore_case);
    assert_eq!(config.query, "needle");
}

#[test]
fn no_flag_defaults_to_case_sensitive() {
    let args = tokens(&["prog", "needle", "haystack.txt"]);
    let config = Config::from(&args, None).unwrap();
    assert!(!config.ignore_case);
    assert_eq!(config.query, "needle");
    assert_eq!(config.file_path, "haystack.txt");
}

#[test]
fn missing_query_is_reported() {
    let args = tokens(&["prog"]);
    assert_eq!(ConfigError::MissingQuery, expect_error(&args, None));
}

#[test]
fn missing_path_is_reported() {
    let args = tokens(&["prog", "needle"]);
    assert_eq!(ConfigError::MissingPath, expect_error(&args, None));
    let args = tokens(&["prog", "-i", "needle"]);
    assert_eq!(ConfigError::MissingPath, expect_error(&args, None));
}

#[test]
fn unknown_flag_is_reported() {
    let args = tokens(&["prog", "-x", "needle", "haystack.txt"]);
    assert_eq!(ConfigError::UnknownFlag, expect_error(&args, None));
    let args = tokens(&["prog", "--", "needle", "haystack.txt"]);
    assert_eq!(ConfigError::UnknownFlag, expect_error(&args, None));
}

#[test]
fn environment_one_forces_ignore_case() {
    let args = tokens(&["prog", "needle", "haystack.txt"]);
    let config = Config::from(&args, Some("1")).unwrap();
    assert!(config.ignore_case);
}

#[test]
fn environment_true_is_case_insensitive_itself() {
    let args = tokens(&["prog", "needle", "haystack.txt"]);
    assert!(Config::from(&args, Some("true")).unwrap().ignore_case);
    assert!(Config::from(&args, Some("TRUE")).unwrap().ignore_case);
    assert!(Config::from(&args, Some("True")).unwrap().ignore_case);
}

#[test]
fn other_environment_values_do_not_force() {
    let args = tokens(&["prog", "needle", "haystack.txt"]);
    assert!(!Config::from(&args, Some("0")).unwrap().ignore_case);
    assert!(!Config::from(&args, Some("")).unwrap().ignore_case);
    assert!(!Config::from(&args, Some("yes")).unwrap().ignore_case);
}

#[test]
fn flag_wins_over_environment_absence() {
    let args = tokens(&["prog", "-i", "needle", "haystack.txt"]);
    let config = Config::from(&args, Some("0")).unwrap();
    assert!(config.ignore_case);
}

#[test]
fn tokens_after_first_positional_are_positional() {
    let args = tokens(&["prog", "needle", "-i"]);
    let config = Config::from(&args, None).unwrap();
    assert_eq!(config.query, "needle");
    assert_eq!(config.file_path, "-i");
    assert!(!config.ignore_case);
}

#[test]
fn extra_tokens_are_ignored() {
    let args = tokens(&["prog", "needle", "haystack.txt", "spare"]);
    let config = Config::from(&args, None).unwrap();
    assert_eq!(config.query, "needle");
    assert_eq!(config.file_path, "haystack.txt");
}

#[test]
fn repeated_flags_are_accepted() {
    let args = tokens(&["prog", "-i", "--ignore-case", "needle", "haystack.txt"]);
    let config = Config::from(&args, None).unwrap();
    assert!(config.ignore_case);
    assert_eq!(config.query, "needle");
    assert_eq!(config.file_path, "haystack.txt");
}
