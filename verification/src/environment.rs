//! Environment configuration: the variables a build injects, the
//! configuration made from them, and the checks on both.

pub mod config;
pub mod env_type;
pub mod error;
pub mod health;
pub mod status;
pub mod validation;
pub mod variables;

pub use config::EnvironmentConfig;
pub use env_type::EnvironmentType;
pub use error::{EnvironmentError, ErrorSeverity};
pub use variables::{
    get_app_title, get_base_url, get_env_type, load_environment_config, BuildEnvironment,
};
pub use validation::{validate_config, validate_environment_variable};
pub use status::{get_debug_info, get_environment_status};
pub use health::{count_critical_errors, health_check, safe_init_environment};
