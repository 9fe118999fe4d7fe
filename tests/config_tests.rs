use gmux::config::{
    default_direction, default_per_page, default_sort, get_config_dir, get_config_path,
    get_template_path, join_path, Config, DEFAULT_PR_TEMPLATE,
};
use gmux::error::GmuxError;

#[test]
fn test_config_validation() {
    let config = Config::default();
    assert!(config.validate().is_err());

    let config = Config {
        github_token: "test-token".to_string(),
        default_org: "test-org".to_string(),
        ..Default::default()
    };
    assert!(config.validate().is_ok());
}

#[test]
fn config_defaults() {
    let config = Config::default();
    assert_eq!(config.per_page, 100);
    assert_eq!(config.sort, "updated");
    assert_eq!(config.direction, "desc");
    assert_eq!(default_per_page(), 100);
    assert_eq!(default_sort(), "updated");
    assert_eq!(default_direction(), "desc");
}

#[test]
fn validation_names_the_missing_setting() {
    let config = Config::default();
    match config.validate() {
        Err(GmuxError::Config(m)) => assert_eq!(m, "GitHub token is required"),
        other => panic!("unexpected {:?}", other),
    }
    let config = Config { github_token: "t".to_string(), ..Default::default() };
    match config.validate() {
        Err(GmuxError::Config(m)) => assert_eq!(m, "Default organization is required"),
        other => panic!("unexpected {:?}", other),
    }
}

#[test]
fn test_get_template_content() {
    let dir = get_config_dir(Some("/tmp/gmux-test"), Some("/home/x"));
    assert_eq!(dir, "/tmp/gmux-test");
    assert_eq!(get_template_path(&dir), "/tmp/gmux-test/pr_template.md");
}

#[test]
fn config_paths() {
    assert_eq!(get_config_dir(None, Some("/home/ann")), "/home/ann/.gmux");
    assert_eq!(get_config_dir(None, None), "./.gmux");
    assert_eq!(get_config_path("/home/ann/.gmux"), "/home/ann/.gmux/config.json");
    assert_eq!(join_path("/root/", "a"), "/root/a");
    assert_eq!(join_path("", "a"), "a");
}

#[test]
fn default_template_holds_the_markers() {
    assert!(DEFAULT_PR_TEMPLATE.contains("{{ title }}"));
    assert!(DEFAULT_PR_TEMPLATE.contains("{% for file in diff_files %}\n- {{ file }}\n{% endfor %}"));
    assert!(DEFAULT_PR_TEMPLATE.contains("{{ repository_name }}"));
}

#[test]
fn error_reports() {
    let e = GmuxError::Config("bad".to_string());
    assert_eq!(e.message(), "Configuration error: bad");
    assert_eq!(e.format_error(), "Configuration error: bad");
    let e = GmuxError::GitHubApi { message: "Bad credentials".to_string(), documentation_url: None };
    assert_eq!(e.format_error(), "GitHub API Error: Bad credentials");
    assert_eq!(e.message(), "GitHub API error: Bad credentials");
    let e = GmuxError::GitHubApi {
        message: "Not Found".to_string(),
        documentation_url: Some("https://docs".to_string()),
    };
    assert_eq!(
        e.format_error(),
        "GitHub API Error: Not Found\n\nNext steps:\n1. Visit https://docs to resolve the issue\n2. Ensure your token has the required permissions"
    );
    assert_eq!(GmuxError::Io("x".to_string()).message(), "IO error: x");
    assert_eq!(GmuxError::Git("x".to_string()).message(), "Git error: x");
    assert_eq!(GmuxError::Validation("x".to_string()).message(), "Validation error: x");
    assert_eq!(GmuxError::Json("x".to_string()).message(), "JSON error: x");
    assert_eq!(GmuxError::Anyhow("x".to_string()).message(), "Anyhow error: x");
}
