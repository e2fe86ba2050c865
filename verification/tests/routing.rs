use vite_app_core::routing::{check_restored_route, RestoredRoute};

fn marker(was_restored: Option<bool>, full_path: Option<&str>) -> Option<RestoredRoute> {
    Some(RestoredRoute { was_restored, full_path: full_path.map(str::to_string) })
}

#[test]
fn no_marker_no_route() {
    assert_eq!(check_restored_route(None), None);
}

#[test]
fn restored_marker_gives_its_path() {
    assert_eq!(
        check_restored_route(marker(Some(true), Some("/md-demo?tab=2"))),
        Some("/md-demo?tab=2".to_string())
    );
    assert_eq!(check_restored_route(marker(Some(true), Some(""))), Some(String::new()));
}

#[test]
fn marker_that_says_no_gives_nothing() {
    assert_eq!(check_restored_route(marker(Some(false), Some("/md-demo"))), None);
}

#[test]
fn marker_without_flag_counts_as_no() {
    assert_eq!(check_restored_route(marker(None, Some("/md-demo"))), None);
    assert_eq!(check_restored_route(marker(None, None)), None);
}

#[test]
fn restored_marker_without_path_gives_nothing() {
    assert_eq!(check_restored_route(marker(Some(true), None)), None);
}
