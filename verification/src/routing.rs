//! The route to take up again after a detour over the not-found page.

use crate::text::text_of;
use vstd::prelude::*;

verus! {

/// The marker that the not-found page leaves behind before it redirects to
/// the application. Either field is `None` where the marker lacks it or
/// holds a value of another type there.
#[derive(Debug, Clone, PartialEq)]
pub struct RestoredRoute {
    /// Whether the page was reached by such a redirect.
    pub was_restored: Option<bool>,
    /// The path that was asked for in the first place.
    pub full_path: Option<String>,
}

/// The mathematical content of a [`RestoredRoute`].
pub struct RestoredRouteView {
    pub was_restored: Option<bool>,
    pub full_path: Option<Seq<char>>,
}

impl View for RestoredRoute {
    type V = RestoredRouteView;

    open spec fn view(&self) -> RestoredRouteView {
        RestoredRouteView { was_restored: self.was_restored, full_path: text_of(self.full_path) }
    }
}

/// The content of an optional marker.
pub open spec fn marker_view(marker: Option<RestoredRoute>) -> Option<RestoredRouteView> {
    match marker {
        Some(m) => Some(m@),
        None => None,
    }
}

/// The path to take up again: the one that the marker holds, where there
/// is a marker and it says that the page was reached by a redirect.
pub open spec fn restored_path(marker: Option<RestoredRouteView>) -> Option<Seq<char>> {
    match marker {
        Some(m) => if m.was_restored == Some(true) {
            m.full_path
        } else {
            None
        },
        None => None,
    }
}

/// Tells which path to take up again, if any. A marker without its flag
/// counts as one that says no.
pub fn check_restored_route(marker: Option<RestoredRoute>) -> (r: Option<String>)
    ensures
        text_of(r) == restored_path(marker_view(marker)),
{
    let marker = marker?;
    let was_restored = match marker.was_restored {
        Some(flag) => flag,
        None => false,
    };
    if was_restored {
        marker.full_path
    } else {
        None
    }
}

} // verus!
