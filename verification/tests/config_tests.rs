use burncloud_auto_update::UpdateConfig;

#[test]
fn test_default_config() {
    let config = UpdateConfig::default();
    assert_eq!(config.github_owner, "burncloud");
    assert_eq!(config.github_repo, "burncloud");
    assert_eq!(config.bin_name, "burncloud");
    assert_eq!(config.current_version, "0.1.0");
}

#[test]
fn test_config_builder() {
    let config = UpdateConfig::new(
        "owner".to_string(),
        "repo".to_string(),
        "app".to_string(),
        "1.0.0".to_string(),
    )
    .with_github_repo("new_owner".to_string(), "new_repo".to_string())
    .with_bin_name("new_app".to_string())
    .with_current_version("2.0.0".to_string());

    assert_eq!(config.github_owner, "new_owner");
    assert_eq!(config.github_repo, "new_repo");
    assert_eq!(config.bin_name, "new_app");
    assert_eq!(config.current_version, "2.0.0");
}

#[test]
fn test_download_links() {
    let config = UpdateConfig::default();
    let (github, gitee) = config.download_links();

    assert_eq!(github, "https://github.com/burncloud/burncloud/releases");
    assert_eq!(gitee, "https://gitee.com/burncloud/burncloud/releases");
}

#[test]
fn test_release_urls_for_custom_repo() {
    let config = UpdateConfig::new(
        "an-owner".to_string(),
        "a-repo".to_string(),
        "app".to_string(),
        "1.0.0".to_string(),
    );
    assert_eq!(
        config.github_releases_url(),
        "https://github.com/an-owner/a-repo/releases"
    );
    assert_eq!(
        config.gitee_releases_url(),
        "https://gitee.com/an-owner/a-repo/releases"
    );
}

#[test]
fn test_builder_last_call_wins_and_keeps_other_fields() {
    let config = UpdateConfig::new(
        "owner".to_string(),
        "repo".to_string(),
        "app".to_string(),
        "1.0.0".to_string(),
    )
    .with_bin_name("x".to_string())
    .with_bin_name("y".to_string());

    assert_eq!(config.bin_name, "y");
    assert_eq!(config.github_owner, "owner");
    assert_eq!(config.github_repo, "repo");
    assert_eq!(config.current_version, "1.0.0");
}

#[test]
fn test_builder_repeated_call_is_idempotent() {
    let once = UpdateConfig::new(
        "owner".to_string(),
        "repo".to_string(),
        "app".to_string(),
        "1.0.0".to_string(),
    )
    .with_current_version("3.0.0".to_string());
    let twice = once.clone().with_current_version("3.0.0".to_string());

    assert_eq!(twice.current_version, once.current_version);
    assert_eq!(twice.github_owner, once.github_owner);
    assert_eq!(twice.github_repo, once.github_repo);
    assert_eq!(twice.bin_name, once.bin_name);
}
