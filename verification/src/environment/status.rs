//! A report on the injected variables, for people to read.

use crate::environment::env_type::EnvironmentType;
use crate::environment::validation::{validate_environment_variable, variable_fault};
use crate::environment::variables::{load_environment_config, BuildEnvironment, BuildView};
use crate::text::text_of;
use vstd::hash_map::StringHashMap;
use vstd::prelude::*;

verus! {

/// The status of one variable: its value after a check mark where the value
/// is sound, its value and the fault after a cross where it is not, and a
/// warning where the variable was not set.
pub open spec fn status_text(name: Seq<char>, value: Option<Seq<char>>) -> Seq<char> {
    match value {
        Some(v) => match variable_fault(name, v) {
            None => "✅ "@ + v,
            Some(fault) => "❌ "@ + v + " ("@ + fault.text() + ")"@,
        },
        None => "⚠️ Not set (using default)"@,
    }
}

/// The status of each of the four variables, by the variable's name.
pub open spec fn status_by_name(build: BuildView) -> Map<Seq<char>, Seq<char>> {
    map![
        "VITE_BASE_URL"@ => status_text("VITE_BASE_URL"@, build.base_url),
        "VITE_ENV"@ => status_text("VITE_ENV"@, build.env),
        "VITE_APP_TITLE"@ => status_text("VITE_APP_TITLE"@, build.app_title),
        "BUILD_TIME"@ => status_text("BUILD_TIME"@, build.build_time),
    ]
}

/// The entries of a map of strings, each string taken by its characters.
pub open spec fn texts(m: Map<Seq<char>, String>) -> Map<Seq<char>, Seq<char>> {
    m.map_values(|s: String| s@)
}

/// One line of the report: the name of a variable and its status.
pub open spec fn status_line(name: Seq<char>, status: Seq<char>) -> Seq<char> {
    "\n  - "@ + name + ": "@ + status
}

/// How a flag is written.
pub open spec fn flag_text(flag: bool) -> Seq<char> {
    if flag {
        "true"@
    } else {
        "false"@
    }
}

/// The whole report: the configuration in force, then one line for each
/// variable, in the order base URL, environment, title, build time.
pub open spec fn debug_text(build: BuildView) -> Seq<char> {
    "Environment Debug Info:\n- Base URL: "@ + build.base_url_in_force() + "\n- Environment: "@
        + build.env_type_in_force().variant_name() + "\n- App Title: "@
        + build.app_title_in_force() + "\n- Debug Mode: "@ + flag_text(build.debug_assertions)
        + "\n- Compile Time: "@ + build.build_time_in_force()
        + "\n\nEnvironment Variables Status:"@ + status_line(
        "VITE_BASE_URL"@,
        status_text("VITE_BASE_URL"@, build.base_url),
    ) + status_line("VITE_ENV"@, status_text("VITE_ENV"@, build.env)) + status_line(
        "VITE_APP_TITLE"@,
        status_text("VITE_APP_TITLE"@, build.app_title),
    ) + status_line("BUILD_TIME"@, status_text("BUILD_TIME"@, build.build_time))
}

fn variable_status(name: &str, value: &Option<String>) -> (r: String)
    ensures
        r@ == status_text(name@, text_of(*value)),
{
    match value {
        Some(v) => match validate_environment_variable(name, v.as_str()) {
            Ok(_) => String::from_str("✅ ").concat(v.as_str()),
            Err(e) => {
                let fault = e.to_string();
                String::from_str("❌ ").concat(v.as_str()).concat(" (").concat(
                    fault.as_str(),
                ).concat(")")
            },
        },
        None => String::from_str("⚠️ Not set (using default)"),
    }
}

fn status_line_for(name: &str, value: &Option<String>) -> (r: String)
    ensures
        r@ == status_line(name@, status_text(name@, text_of(*value))),
{
    let status = variable_status(name, value);
    String::from_str("\n  - ").concat(name).concat(": ").concat(status.as_str())
}

/// The status of each of the four variables `VITE_BASE_URL`, `VITE_ENV`,
/// `VITE_APP_TITLE` and `BUILD_TIME`, by the variable's name.
pub fn get_environment_status(build: &BuildEnvironment) -> (r: StringHashMap<String>)
    ensures
        texts(r@) == status_by_name(build@),
{
    let mut status: StringHashMap<String> = StringHashMap::new();
    status.insert(
        String::from_str("VITE_BASE_URL"),
        variable_status("VITE_BASE_URL", &build.base_url),
    );
    status.insert(String::from_str("VITE_ENV"), variable_status("VITE_ENV", &build.env));
    status.insert(
        String::from_str("VITE_APP_TITLE"),
        variable_status("VITE_APP_TITLE", &build.app_title),
    );
    status.insert(String::from_str("BUILD_TIME"), variable_status("BUILD_TIME", &build.build_time));
    assert(texts(status@) =~= status_by_name(build@));
    status
}

/// A report for people to read: the configuration in force, the build
/// time, and the status of each variable.
pub fn get_debug_info(build: &BuildEnvironment) -> (r: String)
    ensures
        r@ == debug_text(build@),
{
    let config = load_environment_config(build);
    let env_name = match config.env_type {
        EnvironmentType::Development => "Development",
        EnvironmentType::Production => "Production",
        EnvironmentType::GitHubPages => "GitHubPages",
    };
    let build_time = match &build.build_time {
        Some(time) => time.as_str(),
        None => "unknown",
    };
    let mut debug_info = String::from_str("Environment Debug Info:\n- Base URL: ");
    debug_info.append(config.base_url.as_str());
    debug_info.append("\n- Environment: ");
    debug_info.append(env_name);
    debug_info.append("\n- App Title: ");
    debug_info.append(config.app_title.as_str());
    debug_info.append("\n- Debug Mode: ");
    debug_info.append(if config.debug_mode { "true" } else { "false" });
    debug_info.append("\n- Compile Time: ");
    debug_info.append(build_time);
    debug_info.append("\n\nEnvironment Variables Status:");
    debug_info.append(status_line_for("VITE_BASE_URL", &build.base_url).as_str());
    debug_info.append(status_line_for("VITE_ENV", &build.env).as_str());
    debug_info.append(status_line_for("VITE_APP_TITLE", &build.app_title).as_str());
    debug_info.append(status_line_for("BUILD_TIME", &build.build_time).as_str());
    debug_info
}

} // verus!
