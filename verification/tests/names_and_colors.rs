use xfprintd_core::config::colors;
use xfprintd_core::paths::PamServicePath;
use xfprintd_core::paths::recognize_path;
use xfprintd_core::status::ConfigurationStatus;
use xfprintd_core::util::create_short_finger_name;
use xfprintd_core::util::display_finger_name;

#[test]
fn display_finger_name_replaces_dashes_and_capitalizes() {
    assert_eq!(display_finger_name("right-index-finger"), "Right index finger");
    assert_eq!(display_finger_name("left-thumb"), "Left thumb");
}

#[test]
fn display_finger_name_of_empty_is_empty() {
    assert_eq!(display_finger_name(""), "");
}

#[test]
fn short_finger_name_drops_common_words() {
    assert_eq!(create_short_finger_name("Right index finger"), "Index");
    assert_eq!(create_short_finger_name("Left thumb"), "Thumb");
    assert_eq!(create_short_finger_name("Right little finger"), "Little");
}

#[test]
fn short_finger_name_keeps_uncommon_words() {
    assert_eq!(create_short_finger_name("thumb"), "Thumb");
    assert_eq!(create_short_finger_name(""), "");
}

#[test]
fn word_removal_applies_to_every_occurrence() {
    assert_eq!(create_short_finger_name("Left Left thumb"), "Thumb");
}

#[test]
fn short_name_capitalization_is_unicode() {
    assert_eq!(create_short_finger_name("\u{e4}rm"), "\u{c4}rm");
    // A sharp s uppercases to two characters.
    assert_eq!(create_short_finger_name("\u{df}eta"), "SSeta");
}

#[test]
fn leading_dash_becomes_a_space() {
    assert_eq!(display_finger_name("-abc"), " abc");
}

#[test]
fn colors_match_the_fixed_scheme() {
    let c = colors();
    assert_eq!(c.progress, "#a277ff");
    assert_eq!(c.warning, "#ff6ac1");
    assert_eq!(c.error, "#ff4d6d");
    assert_eq!(c.success, "#a277ff");
    assert_eq!(c.neutral, "#8a8f98");
    assert_eq!(c.process, "#5ea2ff");
}

#[test]
fn only_the_two_canonical_paths_are_recognized() {
    assert_eq!(recognize_path("/etc/pam.d/sudo"), Some(PamServicePath::Sudo));
    assert_eq!(recognize_path("/etc/pam.d/polkit-1"), Some(PamServicePath::Polkit));
    assert_eq!(recognize_path("/etc/pam.d/sudo "), None);
    assert_eq!(recognize_path("/etc/pam.d/polkit"), None);
    assert_eq!(recognize_path(""), None);
}

#[test]
fn path_data_is_fixed() {
    assert_eq!(PamServicePath::Sudo.config_path(), "/etc/pam.d/sudo");
    assert_eq!(PamServicePath::Polkit.config_path(), "/etc/pam.d/polkit-1");
    assert_eq!(PamServicePath::Sudo.template_path(), None);
    assert_eq!(
        PamServicePath::Polkit.template_path(),
        Some("/usr/lib/pam.d/polkit-1")
    );
}

#[test]
fn status_reads_back_per_path() {
    let st = ConfigurationStatus { sudo_enabled: true, polkit_enabled: false };
    assert!(st.enabled_for(&PamServicePath::Sudo));
    assert!(!st.enabled_for(&PamServicePath::Polkit));
    let none = ConfigurationStatus::all_disabled();
    assert!(!none.sudo_enabled);
    assert!(!none.polkit_enabled);
}
