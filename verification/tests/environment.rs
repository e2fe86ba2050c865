use vite_app_core::environment::{
    get_app_title, get_base_url, get_debug_info, get_env_type, get_environment_status,
    health_check, load_environment_config, safe_init_environment, validate_config,
    BuildEnvironment, EnvironmentConfig, EnvironmentError, EnvironmentType, ErrorSeverity,
};

/// A build that injected nothing.
fn nothing_set() -> BuildEnvironment {
    BuildEnvironment {
        base_url: None,
        env: None,
        app_title: None,
        build_time: None,
        debug_assertions: true,
    }
}

#[test]
fn test_environment_type_from_str() {
    assert_eq!(EnvironmentType::from_str("development"), EnvironmentType::Development);
    assert_eq!(EnvironmentType::from_str("dev"), EnvironmentType::Development);
    assert_eq!(EnvironmentType::from_str("production"), EnvironmentType::Production);
    assert_eq!(EnvironmentType::from_str("prod"), EnvironmentType::Production);
    assert_eq!(EnvironmentType::from_str("github-pages"), EnvironmentType::GitHubPages);
    assert_eq!(EnvironmentType::from_str("github"), EnvironmentType::GitHubPages);
    assert_eq!(EnvironmentType::from_str("unknown"), EnvironmentType::Development);
}

#[test]
fn test_default_environment_config() {
    let config = EnvironmentConfig::default(true);
    assert_eq!(config.base_url, "/");
    assert_eq!(config.env_type, EnvironmentType::Development);
    assert_eq!(config.app_title, "Leptos App");
}

#[test]
fn test_get_base_url() {
    let base_url = get_base_url(&nothing_set());
    assert!(!base_url.is_empty());
    assert!(base_url.starts_with('/'));
}

#[test]
fn test_get_env_type() {
    let env_type = get_env_type(&nothing_set());
    match env_type {
        EnvironmentType::Development
        | EnvironmentType::Production
        | EnvironmentType::GitHubPages => {}
    }
}

#[test]
fn test_get_app_title() {
    let title = get_app_title(&nothing_set());
    assert!(!title.is_empty());
}

#[test]
fn test_load_environment_config() {
    let config = load_environment_config(&nothing_set());
    assert!(!config.base_url.is_empty());
    assert!(!config.app_title.is_empty());
}

#[test]
fn test_validate_config_success() {
    match validate_config(&nothing_set()) {
        Ok(_) => {}
        Err(err) => {
            let _fallback = err.handle_gracefully(true);
        }
    }
}

#[test]
fn test_environment_error_handling() {
    let missing_error = EnvironmentError::MissingRequired("TEST_VAR".to_string());
    let config = missing_error.handle_gracefully(true);
    assert_eq!(config.base_url, "/");
    assert_eq!(missing_error.severity(), ErrorSeverity::Warning);
    assert!(missing_error.should_continue());

    let format_error = EnvironmentError::InvalidFormat("Invalid format".to_string());
    let config = format_error.handle_gracefully(true);
    assert_eq!(config.base_url, "/");
    assert_eq!(format_error.severity(), ErrorSeverity::Error);
    assert!(format_error.should_continue());

    let critical_error = EnvironmentError::ConfigurationError("Critical error".to_string());
    assert_eq!(critical_error.severity(), ErrorSeverity::Critical);
    assert!(!critical_error.should_continue());
}

#[test]
fn test_get_debug_info() {
    let debug_info = get_debug_info(&nothing_set());
    assert!(debug_info.contains("Environment Debug Info"));
    assert!(debug_info.contains("Base URL"));
    assert!(debug_info.contains("Environment"));
    assert!(debug_info.contains("App Title"));
    assert!(debug_info.contains("Environment Variables Status"));
}

#[test]
fn test_environment_type_to_string() {
    assert_eq!(EnvironmentType::Development.to_string(), "development");
    assert_eq!(EnvironmentType::Production.to_string(), "production");
    assert_eq!(EnvironmentType::GitHubPages.to_string(), "github-pages");
}

#[test]
fn test_get_environment_status() {
    let status = get_environment_status(&nothing_set());
    assert!(status.contains_key("VITE_BASE_URL"));
    assert!(status.contains_key("VITE_ENV"));
    assert!(status.contains_key("VITE_APP_TITLE"));
    assert!(status.contains_key("BUILD_TIME"));
}

#[test]
fn test_safe_init_environment() {
    let config = safe_init_environment(&nothing_set());
    assert!(!config.base_url.is_empty());
    assert!(!config.app_title.is_empty());
}

#[test]
fn test_health_check() {
    match health_check(&nothing_set()) {
        Ok(config) => {
            assert!(!config.base_url.is_empty());
        }
        Err(errors) => {
            assert!(!errors.is_empty());
        }
    }
}
