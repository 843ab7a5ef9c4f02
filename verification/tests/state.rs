use ppd_egui::Profile;
use ppd_egui::ToggleSwitch;

#[test]
fn profile_names_are_exact() {
    assert_eq!(Profile::PowerSaver.name(), "power-saver");
    assert_eq!(Profile::Balanced.name(), "balanced");
    assert_eq!(Profile::Performance.name(), "performance");
    assert_eq!(Profile::Other.name(), "other");
}

#[test]
fn profile_decoding_is_exact() {
    assert_eq!(Profile::from_name("power-saver"), Profile::PowerSaver);
    assert_eq!(Profile::from_name("balanced"), Profile::Balanced);
    assert_eq!(Profile::from_name("performance"), Profile::Performance);
    assert_eq!(Profile::from_name("other"), Profile::Other);
}

#[test]
fn profile_name_round_trips() {
    for p in [
        Profile::PowerSaver,
        Profile::Balanced,
        Profile::Performance,
        Profile::Other,
    ] {
        assert_eq!(Profile::from_name(&p.name()), p);
    }
}

#[test]
fn unknown_identifier_decodes_to_other() {
    assert_eq!(Profile::from_name("unknown-mode"), Profile::Other);
    assert_eq!(Profile::from_name(""), Profile::Other);
    assert_eq!(Profile::from_name("Balanced"), Profile::Other);
}

#[test]
fn toggle_switch_keeps_its_state() {
    assert!(ToggleSwitch::new(true).is_checked());
    assert!(!ToggleSwitch::new(false).is_checked());
}
