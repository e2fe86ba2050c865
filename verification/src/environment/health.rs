//! The health check on the injected values, and the start-up that never
//! fails.

use crate::environment::config::{bounded_by_separators, ConfigView, EnvironmentConfig};
use crate::environment::env_type::EnvironmentType;
use crate::environment::error::{EnvironmentError, ErrorKind, ErrorView};
use crate::environment::validation::{
    base_url_fault, byte_length, validate_config, validate_environment_variable, variable_fault,
};
use crate::environment::variables::{
    get_app_title, get_base_url, get_env_type, load_environment_config, BuildEnvironment,
    BuildView,
};
use vstd::prelude::*;

verus! {

/// A fault, if there is one, as a sequence of at most one element.
pub open spec fn reported(fault: Option<ErrorView>) -> Seq<ErrorView> {
    match fault {
        Some(e) => seq![e],
        None => seq![],
    }
}

/// The content of each error of a list.
pub open spec fn error_views(errors: Seq<EnvironmentError>) -> Seq<ErrorView> {
    errors.map_values(|e: EnvironmentError| e@)
}

/// Whether the values in force make a usable configuration: the base URL
/// begins and ends with a path separator, and the title is not empty and no
/// longer than 100 bytes.
pub open spec fn healthy(build: BuildView) -> bool {
    &&& bounded_by_separators(build.base_url_in_force())
    &&& build.app_title_in_force().len() > 0
    &&& byte_length(build.app_title_in_force()) <= 100
}

/// Every fault of the values in force, in the order in which the health
/// check looks for them: the base URL as a variable, the title as a
/// variable, the base URL as part of the configuration.
pub open spec fn health_faults(build: BuildView) -> Seq<ErrorView> {
    reported(variable_fault("VITE_BASE_URL"@, build.base_url_in_force())) + reported(
        variable_fault("VITE_APP_TITLE"@, build.app_title_in_force()),
    ) + reported(base_url_fault(build.base_url_in_force()))
}

/// The configuration to start with: the injected one where it is healthy,
/// the default one where it is not.
pub open spec fn starting_config(build: BuildView) -> ConfigView {
    if healthy(build) {
        build.config()
    } else {
        ConfigView::fallback(build.debug_assertions)
    }
}

/// The names of the three checked variables have three different lengths.
pub proof fn lemma_variable_names_differ()
    ensures
        "VITE_BASE_URL"@.len() == 13,
        "VITE_ENV"@.len() == 8,
        "VITE_APP_TITLE"@.len() == 14,
{
    reveal_strlit("VITE_BASE_URL");
    reveal_strlit("VITE_ENV");
    reveal_strlit("VITE_APP_TITLE");
}

/// The canonical name of an environment type always passes the check on
/// `VITE_ENV`.
pub proof fn lemma_canonical_name_is_sound(env_type: EnvironmentType)
    ensures
        variable_fault("VITE_ENV"@, env_type.name()) is None,
{
    lemma_variable_names_differ();
}

/// The values in force are free of faults exactly when they are healthy.
pub proof fn lemma_faultless_iff_healthy(build: BuildView)
    ensures
        health_faults(build).len() == 0 <==> healthy(build),
{
    lemma_variable_names_differ();
}

/// Whatever was injected, the configuration to start with is well formed.
pub proof fn lemma_starting_config_is_well_formed(build: BuildView)
    ensures
        starting_config(build).well_formed(),
{
    reveal_strlit("/");
}

/// Every fault that the health check can report is a fault of format, so
/// none of them is critical.
pub proof fn lemma_health_faults_are_format_faults(build: BuildView, i: int)
    requires
        0 <= i < health_faults(build).len(),
    ensures
        health_faults(build)[i].kind == ErrorKind::InvalidFormat,
        health_faults(build)[i].severity().allows_continuing(),
{
    lemma_variable_names_differ();
}

/// The errors of a list after which an application must not go on.
pub open spec fn critical_errors(errors: Seq<EnvironmentError>) -> Seq<EnvironmentError> {
    errors.filter(|e: EnvironmentError| !e@.severity().allows_continuing())
}

/// A list of errors that each allow to go on holds no critical error.
pub proof fn lemma_none_critical(errors: Seq<EnvironmentError>)
    requires
        forall|i: int| 0 <= i < errors.len() ==> (#[trigger] errors[i])@.severity().allows_continuing(),
    ensures
        critical_errors(errors).len() == 0,
    decreases errors.len(),
{
    reveal(Seq::filter);
    if errors.len() > 0 {
        lemma_none_critical(errors.drop_last());
    }
}

/// Counts the errors of a list after which an application must not go on.
pub fn count_critical_errors(errors: &Vec<EnvironmentError>) -> (n: usize)
    ensures
        n == critical_errors(errors@).len(),
{
    let mut count: usize = 0;
    let mut i: usize = 0;
    while i < errors.len()
        invariant
            i <= errors.len(),
            count <= i,
            count == critical_errors(errors@.take(i as int)).len(),
        decreases errors.len() - i,
    {
        proof {
            reveal(Seq::filter);
            assert(errors@.take(i + 1).drop_last() =~= errors@.take(i as int));
        }
        if !errors[i].should_continue() {
            count += 1;
        }
        i += 1;
    }
    proof {
        assert(errors@.take(errors.len() as int) =~= errors@);
    }
    count
}

/// Checks every value in force. Returns the configuration where all of them
/// are sound, and every fault found, in order, where some are not.
pub fn health_check(build: &BuildEnvironment) -> (r: Result<
    EnvironmentConfig,
    Vec<EnvironmentError>,
>)
    ensures
        r is Ok <==> healthy(build@),
        match r {
            Ok(config) => config@ == build@.config() && config@.well_formed(),
            Err(errors) => {
                &&& errors@.len() > 0
                &&& error_views(errors@) == health_faults(build@)
                &&& critical_errors(errors@).len() == 0
            },
        },
{
    let mut errors: Vec<EnvironmentError> = Vec::new();
    let base_url = get_base_url(build);
    let env_name = get_env_type(build).to_string();
    let app_title = get_app_title(build);
    proof {
        lemma_canonical_name_is_sound(build@.env_type_in_force());
    }

    if let Err(e) = validate_environment_variable("VITE_BASE_URL", base_url.as_str()) {
        errors.push(e);
    }
    // The name checked here is the canonical one of the type that was read,
    // so this check always passes.
    if let Err(e) = validate_environment_variable("VITE_ENV", env_name.as_str()) {
        errors.push(e);
    }
    if let Err(e) = validate_environment_variable("VITE_APP_TITLE", app_title.as_str()) {
        errors.push(e);
    }
    if let Err(e) = validate_config(build) {
        errors.push(e);
    }
    proof {
        assert(error_views(errors@) =~= health_faults(build@));
        lemma_faultless_iff_healthy(build@);
        assert forall|i: int| 0 <= i < errors@.len() implies (#[trigger] errors@[i])@.severity().allows_continuing() by {
            assert(errors@[i]@ == error_views(errors@)[i]);
            lemma_health_faults_are_format_faults(build@, i);
        }
        lemma_none_critical(errors@);
    }

    if errors.is_empty() {
        Ok(load_environment_config(build))
    } else {
        Err(errors)
    }
}

/// Makes the configuration to start with, and never fails: the injected
/// configuration where it is healthy, the default configuration where it is
/// not.
pub fn safe_init_environment(build: &BuildEnvironment) -> (r: EnvironmentConfig)
    ensures
        r@ == starting_config(build@),
        r@.well_formed(),
{
    match health_check(build) {
        Ok(config) => config,
        Err(errors) => {
            let mut config = EnvironmentConfig::default(build.debug_assertions);
            let mut i: usize = 0;
            while i < errors.len()
                invariant
                    i <= errors.len(),
                    config@ == ConfigView::fallback(build@.debug_assertions),
                decreases errors.len() - i,
            {
                config = errors[i].handle_gracefully(build.debug_assertions);
                i += 1;
            }
            config
        },
    }
}

} // verus!
