//! Verified core of a small single-page web application: the configuration
//! that the build injects with its validation and fallback rules, and the
//! plain rules behind the components, the dialogs and the routing.

pub mod components;
pub mod dialogs;
pub mod environment;
pub mod routing;
pub mod text;
