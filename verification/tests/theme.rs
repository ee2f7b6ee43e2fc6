use fullscreenizer::theme::PreferenceRead;
use fullscreenizer::theme::is_dark_mode;

#[test]
fn failed_read_defaults_to_light_mode() {
    // A missing key or value reads as light mode.
    assert!(!is_dark_mode(&PreferenceRead::Failure));
}

#[test]
fn wrong_value_type_defaults_to_light_mode() {
    assert!(!is_dark_mode(&PreferenceRead::OtherType));
}

#[test]
fn light_theme_value_reads_as_light_mode() {
    assert!(!is_dark_mode(&PreferenceRead::Dword { value: 1 }));
}

#[test]
fn dark_theme_value_reads_as_dark_mode() {
    assert!(is_dark_mode(&PreferenceRead::Dword { value: 0 }));
    assert!(is_dark_mode(&PreferenceRead::Dword { value: 2 }));
}
