use moodle_desktop::{get_app_version, APP_VERSION};

#[test]
fn version_is_the_declared_one() {
    assert_eq!(get_app_version(), "0.1.0");
    assert_eq!(get_app_version(), APP_VERSION);
}

#[test]
fn version_is_not_empty() {
    assert!(!get_app_version().is_empty());
}

#[test]
fn version_does_not_change_between_calls() {
    let first = get_app_version();
    let second = get_app_version();
    let third = get_app_version();
    assert_eq!(first, second);
    assert_eq!(second, third);
}
