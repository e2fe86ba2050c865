//! The checks on single variables and on the base URL in force.

use crate::environment::config::bounded_by_separators;
use crate::environment::error::{EnvironmentError, ErrorKind, ErrorView};
use crate::environment::variables::{get_base_url, BuildEnvironment};
use crate::text::{
    begins_with, decimal, decimal_string, ends_with_char, finishes_with, same_text,
    starts_with_char,
};
use vstd::prelude::*;

verus! {

/// The number of bytes that a text takes in UTF-8.
pub open spec fn byte_length(s: Seq<char>) -> nat {
    vstd::utf8::encode_utf8(s).len()
}

/// Whether `value` is one of the three canonical names of an environment
/// type, letter for letter.
pub open spec fn is_canonical_env_name(value: Seq<char>) -> bool {
    value == "development"@ || value == "production"@ || value == "github-pages"@
}

/// What is wrong with a base URL, if anything: it has to begin with the
/// path separator `/`, and to end with it.
pub open spec fn base_url_fault(url: Seq<char>) -> Option<ErrorView> {
    if !starts_with_char(url, '/') {
        Some(ErrorView::invalid_format("Base URL must start with '/': "@ + url))
    } else if !ends_with_char(url, '/') {
        Some(ErrorView::invalid_format("Base URL must end with '/': "@ + url))
    } else {
        None
    }
}

/// What is wrong with the value of the variable `name`, if anything.
///
/// - `VITE_BASE_URL` has to be non-empty, to begin with `/` and to end
///   with `/`.
/// - `VITE_ENV` has to be a canonical name of an environment type.
/// - `VITE_APP_TITLE` has to be non-empty and at most 100 bytes long.
/// - A variable of any other name has nothing to satisfy.
///
/// Of several faults, the first in this order is reported.
pub open spec fn variable_fault(name: Seq<char>, value: Seq<char>) -> Option<ErrorView> {
    if name == "VITE_BASE_URL"@ {
        if value.len() == 0 {
            Some(ErrorView::invalid_format("VITE_BASE_URL cannot be empty"@))
        } else if !starts_with_char(value, '/') {
            Some(ErrorView::invalid_format("VITE_BASE_URL must start with '/': "@ + value))
        } else if !ends_with_char(value, '/') {
            Some(ErrorView::invalid_format("VITE_BASE_URL must end with '/': "@ + value))
        } else {
            None
        }
    } else if name == "VITE_ENV"@ {
        if is_canonical_env_name(value) {
            None
        } else {
            Some(
                ErrorView::invalid_format(
                    "VITE_ENV must be one of [\"development\", \"production\", \"github-pages\"], got: "@
                        + value,
                ),
            )
        }
    } else if name == "VITE_APP_TITLE"@ {
        if value.len() == 0 {
            Some(ErrorView::invalid_format("VITE_APP_TITLE cannot be empty"@))
        } else if byte_length(value) > 100 {
            Some(
                ErrorView::invalid_format(
                    "VITE_APP_TITLE too long (max 100 chars): "@ + decimal(byte_length(value)),
                ),
            )
        } else {
            None
        }
    } else {
        None
    }
}

/// A base URL is free of faults exactly when it is bounded by path
/// separators on both ends.
pub proof fn lemma_base_url_sound_iff_bounded(url: Seq<char>)
    ensures
        base_url_fault(url) is None <==> bounded_by_separators(url),
        variable_fault("VITE_BASE_URL"@, url) is None <==> bounded_by_separators(url),
{
}

/// Every fault of a variable is a fault of format.
pub proof fn lemma_variable_faults_are_format_faults(name: Seq<char>, value: Seq<char>)
    ensures
        variable_fault(name, value) matches Some(fault) ==> fault.kind == ErrorKind::InvalidFormat,
        base_url_fault(value) matches Some(fault) ==> fault.kind == ErrorKind::InvalidFormat,
{
}

/// Checks the base URL in force: it has to begin and end with the path
/// separator. The error says which end is wrong, the beginning first.
pub fn validate_config(build: &BuildEnvironment) -> (r: Result<(), EnvironmentError>)
    ensures
        r is Ok <==> bounded_by_separators(build@.base_url_in_force()),
        match r {
            Ok(_) => base_url_fault(build@.base_url_in_force()) is None,
            Err(e) => base_url_fault(build@.base_url_in_force()) == Some(e@),
        },
{
    let base_url = get_base_url(build);
    if !begins_with(base_url.as_str(), '/') {
        return Err(
            EnvironmentError::InvalidFormat(
                String::from_str("Base URL must start with '/': ").concat(base_url.as_str()),
            ),
        );
    }
    if !finishes_with(base_url.as_str(), '/') {
        return Err(
            EnvironmentError::InvalidFormat(
                String::from_str("Base URL must end with '/': ").concat(base_url.as_str()),
            ),
        );
    }
    Ok(())
}

/// Checks the value of one variable against the rule for its name, and
/// reports the first fault found.
pub fn validate_environment_variable(name: &str, value: &str) -> (r: Result<
    (),
    EnvironmentError,
>)
    ensures
        match r {
            Ok(_) => variable_fault(name@, value@) is None,
            Err(e) => variable_fault(name@, value@) == Some(e@),
        },
{
    if same_text(name, "VITE_BASE_URL") {
        if value.is_empty() {
            return Err(
                EnvironmentError::InvalidFormat(String::from_str("VITE_BASE_URL cannot be empty")),
            );
        }
        if !begins_with(value, '/') {
            return Err(
                EnvironmentError::InvalidFormat(
                    String::from_str("VITE_BASE_URL must start with '/': ").concat(value),
                ),
            );
        }
        if !finishes_with(value, '/') {
            return Err(
                EnvironmentError::InvalidFormat(
                    String::from_str("VITE_BASE_URL must end with '/': ").concat(value),
                ),
            );
        }
    } else if same_text(name, "VITE_ENV") {
        let known = same_text(value, "development") || same_text(value, "production")
            || same_text(value, "github-pages");
        if !known {
            return Err(
                EnvironmentError::InvalidFormat(
                    String::from_str(
                        "VITE_ENV must be one of [\"development\", \"production\", \"github-pages\"], got: ",
                    ).concat(value),
                ),
            );
        }
    } else if same_text(name, "VITE_APP_TITLE") {
        if value.is_empty() {
            return Err(
                EnvironmentError::InvalidFormat(String::from_str("VITE_APP_TITLE cannot be empty")),
            );
        }
        let bytes: usize = value.as_bytes().len();
        if bytes > 100 {
            let count = decimal_string(bytes);
            return Err(
                EnvironmentError::InvalidFormat(
                    String::from_str("VITE_APP_TITLE too long (max 100 chars): ").concat(
                        count.as_str(),
                    ),
                ),
            );
        }
    }
    Ok(())
}

} // verus!
