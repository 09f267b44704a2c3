use microwave_gui::{MatchingMethod, MicrowaveGUI, Theme, ValidationState};

#[test]
fn test_gui_creation() {
    let gui = MicrowaveGUI::default();
    assert_eq!(gui.frequency, "");
    assert_eq!(gui.z0, "");
    assert_eq!(gui.load, "");
}

#[test]
fn test_input_validation() {
    let mut gui = MicrowaveGUI::default();

    // A valid frequency is stored.
    gui.set_frequency("2.4e9".to_string());
    assert_eq!(gui.frequency, "2.4e9");

    // An invalid one leaves the stored text alone.
    gui.set_frequency("invalid".to_string());
    assert_eq!(gui.frequency, "2.4e9");
}

#[test]
fn test_matching_method_selection() {
    let mut gui = MicrowaveGUI::default();

    gui.set_matching_method("L");
    assert_eq!(gui.matching_method, MatchingMethod::L);

    gui.set_matching_method("Pi");
    assert_eq!(gui.matching_method, MatchingMethod::Pi);

    gui.set_matching_method("T");
    assert_eq!(gui.matching_method, MatchingMethod::T);
}

#[test]
fn mod_test_theme_switching() {
    let mut gui = MicrowaveGUI::default();
    assert_eq!(gui.theme, Theme::Light);

    gui.set_theme("dark");
    assert_eq!(gui.theme, Theme::Dark);

    gui.set_theme("light");
    assert_eq!(gui.theme, Theme::Light);
}

#[test]
fn test_validation_state() {
    let mut state = ValidationState::default();
    assert!(!state.is_valid());

    state.frequency_valid = true;
    state.z0_valid = true;
    state.load_valid = true;
    assert!(state.is_valid());

    state.frequency_valid = false;
    assert!(!state.is_valid());
}
