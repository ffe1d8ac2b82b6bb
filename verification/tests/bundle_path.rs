use app_icon::bundle_path::{is_app_bundle_path, is_app_extension};
use app_icon::icon_state::{clears_custom_file_icon, IconState};

#[test]
fn app_bundles_are_recognised() {
    assert!(is_app_bundle_path("/Applications/Con.app"));
    assert!(is_app_bundle_path("/Applications/Con.app/"));
    assert!(is_app_bundle_path("Con.app"));
}

#[test]
fn development_launch_directories_are_not_bundles() {
    assert!(!is_app_bundle_path("/Users/me/con/target/debug"));
    assert!(!is_app_bundle_path("/Users/me/con/target/debug/con.apps"));
    assert!(!is_app_bundle_path("/tmp/.app"));
    assert!(!is_app_bundle_path(""));
}

#[test]
fn only_the_exact_extension_counts() {
    assert!(is_app_extension(Some("app")));
    assert!(!is_app_extension(Some("App")));
    assert!(!is_app_extension(Some("")));
    assert!(!is_app_extension(None));
}

#[test]
fn only_the_default_icon_clears_the_custom_file_icon() {
    let state = IconState::new("default");
    assert!(clears_custom_file_icon(&state, "default"));
    assert!(!clears_custom_file_icon(&state, "raccoon-suit-a6"));
    assert!(!clears_custom_file_icon(&state, ""));
}
