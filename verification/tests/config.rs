use oura::config::{apply_env_overrides, engine_config, Config, EnvOverrides, GeneralConfig, GitHubConfig, LoggingConfig, LoopEngineConfig};

fn no_env() -> EnvOverrides {
    EnvOverrides {
        max_iterations: None,
        min_score: None,
        github_token: None,
        github_owner: None,
        github_repo: None,
        github_enabled: None,
        working_dir: None,
    }
}

#[test]
fn test_config_default() {
    let config = Config::default();
    assert_eq!(config.loop_engine.max_iterations, 20);
    assert_eq!(config.loop_engine.min_score, 90);
    assert!(!config.github.enabled);
}

#[test]
fn test_general_config_default() {
    let config = GeneralConfig::default();
    assert_eq!(config.profile, "default");
    assert!(config.data_dir.is_none());
}

#[test]
fn test_loop_engine_config_default() {
    let config = LoopEngineConfig::default();
    assert_eq!(config.max_iterations, 20);
    assert_eq!(config.min_score, 90);
    assert_eq!(config.feedback_sources, vec!["test", "lint"]);
    assert_eq!(config.max_runtime_secs, 3600);
}

#[test]
fn test_github_config_default() {
    let config = GitHubConfig::default();
    assert!(!config.enabled);
    assert!(!config.auto_commit);
    assert!(!config.auto_pr);
    assert_eq!(config.pr_title_prefix, "[Oura] ");
}

#[test]
fn test_logging_config_default() {
    let config = LoggingConfig::default();
    assert_eq!(config.level, "info");
    assert_eq!(config.format, "text");
    assert_eq!(config.output, "stderr");
}

#[test]
fn test_convergence_threshold_env_nan_rejected() {
    // A threshold that does not read as a finite number from 0 to 100 reaches the
    // library as no override.
    let config = apply_env_overrides(Config::default(), &no_env());
    assert_eq!(config.loop_engine.min_score, 90);
}

#[test]
fn test_convergence_threshold_env_valid() {
    // 85.5 is reached by the whole scores from 86 on.
    let mut env = no_env();
    env.min_score = Some(86);
    let config = apply_env_overrides(Config::default(), &env);
    assert_eq!(config.loop_engine.min_score, 86);
}

#[test]
fn test_apply_env_overrides() {
    let mut env = no_env();
    env.max_iterations = Some("50".to_string());
    env.min_score = Some(95);
    let config = apply_env_overrides(Config::default(), &env);
    assert_eq!(config.loop_engine.max_iterations, 50);
    assert_eq!(config.loop_engine.min_score, 95);
}

#[test]
fn env_overrides_ignore_bad_iteration_count() {
    let mut env = no_env();
    env.max_iterations = Some("fifty".to_string());
    let config = apply_env_overrides(Config::default(), &env);
    assert_eq!(config.loop_engine.max_iterations, 20);
    env.max_iterations = Some("+7".to_string());
    let config = apply_env_overrides(Config::default(), &env);
    assert_eq!(config.loop_engine.max_iterations, 7);
    env.max_iterations = Some("4294967296".to_string());
    let config = apply_env_overrides(Config::default(), &env);
    assert_eq!(config.loop_engine.max_iterations, 20);
}

#[test]
fn env_overrides_github_settings() {
    let mut env = no_env();
    env.github_token = Some("tok".to_string());
    env.github_owner = Some("me".to_string());
    env.github_repo = Some("proj".to_string());
    env.github_enabled = Some("1".to_string());
    env.working_dir = Some("/work".to_string());
    let config = apply_env_overrides(Config::default(), &env);
    assert_eq!(config.github.token.as_deref(), Some("tok"));
    assert_eq!(config.github.default_owner, "me");
    assert_eq!(config.github.default_repo, "proj");
    assert!(config.github.enabled);
    assert_eq!(config.loop_engine.working_directory.as_deref(), Some("/work"));
    env.github_enabled = Some("yes".to_string());
    let config = apply_env_overrides(Config::default(), &env);
    assert!(!config.github.enabled);
}

#[test]
fn masked_token_shows_ends_only() {
    let mut gh = GitHubConfig::default();
    assert_eq!(gh.masked_token(), None);
    gh.token = Some("ghp_1234567890".to_string());
    assert_eq!(gh.masked_token().as_deref(), Some("ghp_\u{2026}7890"));
    gh.token = Some("short".to_string());
    assert_eq!(gh.masked_token().as_deref(), Some("********"));
}

#[test]
fn masked_ascii_tokens_keep_four_characters_at_each_end() {
    let mut gh = GitHubConfig::default();
    gh.token = Some("abcdefghijkl".to_string());
    assert_eq!(gh.masked_token().as_deref(), Some("abcd\u{2026}ijkl"));
    gh.token = Some("abcdefgh".to_string());
    assert_eq!(gh.masked_token().as_deref(), Some("********"));
    gh.token = Some("abcdefghi".to_string());
    assert_eq!(gh.masked_token().as_deref(), Some("abcd\u{2026}fghi"));
}

#[test]
fn engine_config_copies_loop_settings() {
    let mut l = LoopEngineConfig::default();
    l.max_iterations = 7;
    l.working_directory = Some("/w".to_string());
    let e = engine_config(&l);
    assert_eq!(e.max_iterations, 7);
    assert_eq!(e.min_score, 90);
    assert_eq!(e.max_runtime_secs, 3600);
    assert_eq!(e.working_directory.as_deref(), Some("/w"));
}
