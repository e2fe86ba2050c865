//! The configuration record an application runs with.

use crate::environment::env_type::EnvironmentType;
use crate::text::{ends_with_char, starts_with_char};
use vstd::prelude::*;

verus! {

/// What an application needs to know about the place it runs in.
#[derive(Debug, Clone)]
pub struct EnvironmentConfig {
    /// The path under which the application is served, such as `/` or
    /// `/my-app/`.
    pub base_url: String,
    /// The deployment the build targets.
    pub env_type: EnvironmentType,
    /// The title shown to the user.
    pub app_title: String,
    /// Whether the build keeps its debugging checks.
    pub debug_mode: bool,
}

/// The mathematical content of an [`EnvironmentConfig`].
pub struct ConfigView {
    pub base_url: Seq<char>,
    pub env_type: EnvironmentType,
    pub app_title: Seq<char>,
    pub debug_mode: bool,
}

/// Whether a base URL begins and ends with the path separator `/`.
pub open spec fn bounded_by_separators(url: Seq<char>) -> bool {
    starts_with_char(url, '/') && ends_with_char(url, '/')
}

impl ConfigView {
    /// The configuration used when the injected one cannot be trusted.
    pub open spec fn fallback(debug_mode: bool) -> ConfigView {
        ConfigView {
            base_url: "/"@,
            env_type: EnvironmentType::Development,
            app_title: "Leptos App"@,
            debug_mode,
        }
    }

    /// The one invariant of a usable configuration: its base URL begins and
    /// ends with a path separator.
    pub open spec fn well_formed(self) -> bool {
        bounded_by_separators(self.base_url)
    }
}

impl View for EnvironmentConfig {
    type V = ConfigView;

    open spec fn view(&self) -> ConfigView {
        ConfigView {
            base_url: self.base_url@,
            env_type: self.env_type,
            app_title: self.app_title@,
            debug_mode: self.debug_mode,
        }
    }
}

impl EnvironmentConfig {
    /// The default configuration: served from `/`, for development, under
    /// the title `Leptos App`. `debug_mode` says whether the build keeps its
    /// debugging checks.
    pub fn default(debug_mode: bool) -> (r: Self)
        ensures
            r@ == ConfigView::fallback(debug_mode),
            r@.well_formed(),
    {
        proof {
            reveal_strlit("/");
        }
        EnvironmentConfig {
            base_url: String::from_str("/"),
            env_type: EnvironmentType::Development,
            app_title: String::from_str("Leptos App"),
            debug_mode,
        }
    }
}

} // verus!
