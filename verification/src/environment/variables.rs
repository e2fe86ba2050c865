//! The values a build injects, and the configuration read from them.

use crate::environment::config::{ConfigView, EnvironmentConfig};
use crate::environment::env_type::EnvironmentType;
use crate::text::text_of;
use vstd::prelude::*;

verus! {

/// What the build injected: four optional variables and the build mode.
/// A variable that was not set is `None`.
#[derive(Debug, Clone, Default)]
pub struct BuildEnvironment {
    /// `VITE_BASE_URL`: the path under which the application is served.
    pub base_url: Option<String>,
    /// `VITE_ENV`: the name of the deployment.
    pub env: Option<String>,
    /// `VITE_APP_TITLE`: the title of the application.
    pub app_title: Option<String>,
    /// `BUILD_TIME`: when the build was made.
    pub build_time: Option<String>,
    /// Whether the build keeps its debugging checks.
    pub debug_assertions: bool,
}

/// The mathematical content of a [`BuildEnvironment`].
pub struct BuildView {
    pub base_url: Option<Seq<char>>,
    pub env: Option<Seq<char>>,
    pub app_title: Option<Seq<char>>,
    pub build_time: Option<Seq<char>>,
    pub debug_assertions: bool,
}

impl View for BuildEnvironment {
    type V = BuildView;

    open spec fn view(&self) -> BuildView {
        BuildView {
            base_url: text_of(self.base_url),
            env: text_of(self.env),
            app_title: text_of(self.app_title),
            build_time: text_of(self.build_time),
            debug_assertions: self.debug_assertions,
        }
    }
}

impl BuildView {
    /// The base URL in force: the injected one, or `/`.
    pub open spec fn base_url_in_force(self) -> Seq<char> {
        match self.base_url {
            Some(url) => url,
            None => "/"@,
        }
    }

    /// The environment type in force: the one that the injected name stands
    /// for, or `Development`.
    pub open spec fn env_type_in_force(self) -> EnvironmentType {
        match self.env {
            Some(name) => EnvironmentType::parse(name),
            None => EnvironmentType::Development,
        }
    }

    /// The title in force: the injected one, or `Leptos + Vite Demo`.
    pub open spec fn app_title_in_force(self) -> Seq<char> {
        match self.app_title {
            Some(title) => title,
            None => "Leptos + Vite Demo"@,
        }
    }

    /// The build time in force: the injected one, or `unknown`.
    pub open spec fn build_time_in_force(self) -> Seq<char> {
        match self.build_time {
            Some(time) => time,
            None => "unknown"@,
        }
    }

    /// The configuration that the injected values describe, taken as they
    /// are, without any check.
    pub open spec fn config(self) -> ConfigView {
        ConfigView {
            base_url: self.base_url_in_force(),
            env_type: self.env_type_in_force(),
            app_title: self.app_title_in_force(),
            debug_mode: self.debug_assertions,
        }
    }
}

/// The base URL of the application: the injected one, or `/` where none was
/// set.
pub fn get_base_url(build: &BuildEnvironment) -> (r: String)
    ensures
        r@ == build@.base_url_in_force(),
{
    match &build.base_url {
        Some(url) => url.clone(),
        None => String::from_str("/"),
    }
}

/// The environment type of the application: the one that the injected name
/// stands for, or `Development` where none was set.
pub fn get_env_type(build: &BuildEnvironment) -> (r: EnvironmentType)
    ensures
        r == build@.env_type_in_force(),
{
    match &build.env {
        Some(name) => EnvironmentType::from_str(name.as_str()),
        None => EnvironmentType::Development,
    }
}

/// The title of the application: the injected one, or `Leptos + Vite Demo`
/// where none was set.
pub fn get_app_title(build: &BuildEnvironment) -> (r: String)
    ensures
        r@ == build@.app_title_in_force(),
{
    match &build.app_title {
        Some(title) => title.clone(),
        None => String::from_str("Leptos + Vite Demo"),
    }
}

/// Reads the whole configuration from the injected values, without
/// checking any of them.
pub fn load_environment_config(build: &BuildEnvironment) -> (r: EnvironmentConfig)
    ensures
        r@ == build@.config(),
{
    EnvironmentConfig {
        base_url: get_base_url(build),
        env_type: get_env_type(build),
        app_title: get_app_title(build),
        debug_mode: build.debug_assertions,
    }
}

} // verus!
