//! What can be wrong with the injected variables, and how bad it is.

use crate::environment::config::{ConfigView, EnvironmentConfig};
use vstd::prelude::*;

verus! {

/// How serious an [`EnvironmentError`] is.
#[derive(Debug, Clone, Copy, PartialEq, Eq, Structural)]
pub enum ErrorSeverity {
    Warning,
    Error,
    Critical,
}

impl ErrorSeverity {
    /// Whether an application may go on after an error of this severity:
    /// it may after a warning or an error, not after a critical one.
    pub open spec fn allows_continuing(self) -> bool {
        match self {
            ErrorSeverity::Warning => true,
            ErrorSeverity::Error => true,
            ErrorSeverity::Critical => false,
        }
    }
}

/// A fault found in the environment. Each variant carries a text with the
/// details: the name of the variable for `MissingRequired`, a message for
/// the others.
#[derive(Debug)]
pub enum EnvironmentError {
    MissingRequired(String),
    InvalidFormat(String),
    ValidationFailed(String),
    ConfigurationError(String),
}

/// The kind of an [`EnvironmentError`], without its details.
pub enum ErrorKind {
    MissingRequired,
    InvalidFormat,
    ValidationFailed,
    ConfigurationError,
}

impl ErrorKind {
    /// The severity of every error of this kind.
    pub open spec fn severity(self) -> ErrorSeverity {
        match self {
            ErrorKind::MissingRequired => ErrorSeverity::Warning,
            ErrorKind::InvalidFormat => ErrorSeverity::Error,
            ErrorKind::ValidationFailed => ErrorSeverity::Error,
            ErrorKind::ConfigurationError => ErrorSeverity::Critical,
        }
    }

    /// The words that open the text of every error of this kind.
    pub open spec fn prefix(self) -> Seq<char> {
        match self {
            ErrorKind::MissingRequired => "Missing required environment variable: "@,
            ErrorKind::InvalidFormat => "Invalid format: "@,
            ErrorKind::ValidationFailed => "Validation failed: "@,
            ErrorKind::ConfigurationError => "Configuration error: "@,
        }
    }
}

/// The mathematical content of an [`EnvironmentError`].
pub struct ErrorView {
    pub kind: ErrorKind,
    pub detail: Seq<char>,
}

impl ErrorView {
    /// An error of the kind `InvalidFormat` with the given message.
    pub open spec fn invalid_format(detail: Seq<char>) -> ErrorView {
        ErrorView { kind: ErrorKind::InvalidFormat, detail }
    }

    /// The severity of the error. It depends on the kind alone.
    pub open spec fn severity(self) -> ErrorSeverity {
        self.kind.severity()
    }

    /// The error as a line of text: the words for its kind, then the details.
    pub open spec fn text(self) -> Seq<char> {
        self.kind.prefix() + self.detail
    }
}

impl View for EnvironmentError {
    type V = ErrorView;

    open spec fn view(&self) -> ErrorView {
        match self {
            EnvironmentError::MissingRequired(d) => ErrorView {
                kind: ErrorKind::MissingRequired,
                detail: d@,
            },
            EnvironmentError::InvalidFormat(d) => ErrorView {
                kind: ErrorKind::InvalidFormat,
                detail: d@,
            },
            EnvironmentError::ValidationFailed(d) => ErrorView {
                kind: ErrorKind::ValidationFailed,
                detail: d@,
            },
            EnvironmentError::ConfigurationError(d) => ErrorView {
                kind: ErrorKind::ConfigurationError,
                detail: d@,
            },
        }
    }
}

impl EnvironmentError {
    /// Recovers from the error by falling back to the default
    /// configuration, whatever the error is.
    pub fn handle_gracefully(&self, debug_mode: bool) -> (r: EnvironmentConfig)
        ensures
            r@ == ConfigView::fallback(debug_mode),
            r@.well_formed(),
    {
        EnvironmentConfig::default(debug_mode)
    }

    /// How serious the error is: a missing variable is a warning, a bad
    /// format or a failed validation an error, a configuration error
    /// critical.
    pub fn severity(&self) -> (r: ErrorSeverity)
        ensures
            r == self@.severity(),
    {
        match self {
            EnvironmentError::MissingRequired(_) => ErrorSeverity::Warning,
            EnvironmentError::InvalidFormat(_) => ErrorSeverity::Error,
            EnvironmentError::ValidationFailed(_) => ErrorSeverity::Error,
            EnvironmentError::ConfigurationError(_) => ErrorSeverity::Critical,
        }
    }

    /// Whether the application may go on after this error.
    pub fn should_continue(&self) -> (r: bool)
        ensures
            r == self@.severity().allows_continuing(),
    {
        match self.severity() {
            ErrorSeverity::Warning | ErrorSeverity::Error => true,
            ErrorSeverity::Critical => false,
        }
    }

    /// The error as a line of text.
    pub fn to_string(&self) -> (r: String)
        ensures
            r@ == self@.text(),
    {
        match self {
            EnvironmentError::MissingRequired(var) => String::from_str(
                "Missing required environment variable: ",
            ).concat(var.as_str()),
            EnvironmentError::InvalidFormat(msg) => String::from_str("Invalid format: ").concat(
                msg.as_str(),
            ),
            EnvironmentError::ValidationFailed(msg) => String::from_str(
                "Validation failed: ",
            ).concat(msg.as_str()),
            EnvironmentError::ConfigurationError(msg) => String::from_str(
                "Configuration error: ",
            ).concat(msg.as_str()),
        }
    }
}

/// The severity of an error is a function of its kind: two errors of one
/// kind are equally severe, whatever their details.
pub proof fn lemma_severity_depends_on_kind(a: ErrorView, b: ErrorView)
    requires
        a.kind == b.kind,
    ensures
        a.severity() == b.severity(),
{
}

/// An application may go on after every error but a critical one.
pub proof fn lemma_only_critical_stops(severity: ErrorSeverity)
    ensures
        severity.allows_continuing() <==> severity != ErrorSeverity::Critical,
{
}

} // verus!
