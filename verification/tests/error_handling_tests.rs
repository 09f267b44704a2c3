use microwave_gui::{MatchingMethod, MicrowaveGUI, Theme, ValidationState};

#[test]
fn test_validation_state_transitions() {
    let mut state = ValidationState::default();
    assert!(!state.is_valid());

    state.frequency_valid = true;
    state.z0_valid = true;
    state.load_valid = true;
    assert!(state.is_valid());

    state.frequency_valid = false;
    assert!(!state.is_valid());
}

#[test]
fn test_input_validation_frequency() {
    let mut gui = MicrowaveGUI::default();

    gui.set_frequency("2.4e9".to_string());
    assert_eq!(gui.frequency, "2.4e9");

    gui.set_frequency("invalid".to_string());
    assert_eq!(gui.frequency, "2.4e9");
}

#[test]
fn test_input_validation_impedance() {
    let mut gui = MicrowaveGUI::default();

    gui.set_z0("50".to_string());
    assert_eq!(gui.z0, "50");

    gui.set_z0("invalid".to_string());
    assert_eq!(gui.z0, "50");
}

#[test]
fn test_batch_update() {
    let mut gui = MicrowaveGUI::default();

    gui.begin_update();
    gui.set_frequency("2.4e9".to_string());
    gui.set_z0("50".to_string());
    gui.end_update();

    assert_eq!(gui.frequency, "2.4e9");
    assert_eq!(gui.z0, "50");
}

#[test]
fn test_matching_method_validation() {
    let mut gui = MicrowaveGUI::default();

    gui.set_matching_method("L");
    assert_eq!(gui.matching_method, MatchingMethod::L);

    // An unknown method leaves the selection alone.
    gui.set_matching_method("invalid");
    assert_eq!(gui.matching_method, MatchingMethod::L);
}

#[test]
fn test_result_handling() {
    let mut gui = MicrowaveGUI::default();

    gui.set_result("test result".to_string());
    assert_eq!(gui.result, "test result");

    gui.clear_result();
    assert_eq!(gui.result, "");
}

#[test]
fn test_complex_state_transitions() {
    let mut gui = MicrowaveGUI::default();

    gui.begin_update();
    gui.set_frequency("2.4e9".to_string());
    gui.set_z0("50".to_string());
    gui.set_matching_method("L");
    gui.end_update();

    assert_eq!(gui.frequency, "2.4e9");
    assert_eq!(gui.z0, "50");
    assert_eq!(gui.matching_method, MatchingMethod::L);
}

#[test]
fn test_error_propagation() {
    let mut gui = MicrowaveGUI::default();

    gui.set_error("test error".to_string());
    assert_eq!(gui.error, "test error");

    gui.clear_error();
    assert_eq!(gui.error, "");
}

#[test]
fn test_concurrent_updates() {
    let mut gui = MicrowaveGUI::default();

    gui.begin_update();
    gui.set_frequency("2.4e9".to_string());
    gui.set_z0("50".to_string());
    gui.end_update();

    gui.begin_update();
    gui.set_matching_method("L");
    gui.set_theme("dark");
    gui.end_update();

    assert_eq!(gui.frequency, "2.4e9");
    assert_eq!(gui.z0, "50");
    assert_eq!(gui.matching_method, MatchingMethod::L);
    assert_eq!(gui.theme, Theme::Dark);
}

#[test]
fn test_boundary_conditions() {
    let mut gui = MicrowaveGUI::default();

    // A very large value.
    gui.set_frequency("1e20".to_string());
    assert_eq!(gui.frequency, "1e20");
    assert!(gui.state.frequency_valid);

    // A very small value.
    gui.set_frequency("1e-20".to_string());
    assert_eq!(gui.frequency, "1e-20");
    assert!(gui.state.frequency_valid);

    // Zero.
    gui.set_frequency("0".to_string());
    assert_eq!(gui.frequency, "0");
    assert!(gui.state.frequency_valid);

    // A negative value: the last valid text stays.
    gui.set_frequency("-1e9".to_string());
    assert_eq!(gui.frequency, "0");
    assert!(!gui.state.frequency_valid);

    // The impedance does not take zero.
    gui.set_z0("0".to_string());
    assert!(!gui.state.z0_valid);

    gui.set_z0("1e-20".to_string());
    assert_eq!(gui.z0, "1e-20");
    assert!(gui.state.z0_valid);

    // Nor does the load.
    gui.set_load("0".to_string());
    assert!(!gui.state.load_valid);

    gui.set_load("1e-20".to_string());
    assert_eq!(gui.load, "1e-20");
    assert!(gui.state.load_valid);
}

#[test]
fn test_empty_input() {
    let mut gui = MicrowaveGUI::default();

    gui.set_frequency("".to_string());
    assert_eq!(gui.frequency, "");
    assert!(!gui.state.frequency_valid);

    gui.set_frequency(" ".to_string());
    assert_eq!(gui.frequency, "");
    assert!(!gui.state.frequency_valid);

    gui.set_frequency("\t".to_string());
    assert_eq!(gui.frequency, "");
    assert!(!gui.state.frequency_valid);
}

#[test]
fn test_special_characters() {
    let mut gui = MicrowaveGUI::default();

    gui.set_frequency("2.4e9!".to_string());
    assert_eq!(gui.frequency, "");
    assert!(!gui.state.frequency_valid);

    gui.set_frequency("2.4e9测试".to_string());
    assert_eq!(gui.frequency, "");
    assert!(!gui.state.frequency_valid);

    gui.set_frequency("<script>2.4e9</script>".to_string());
    assert_eq!(gui.frequency, "");
    assert!(!gui.state.frequency_valid);
}

#[test]
fn test_rapid_updates() {
    let mut gui = MicrowaveGUI::default();

    for i in 0..1000 {
        gui.set_frequency(format!("{}", i));
        assert_eq!(gui.frequency, format!("{}", i));
        assert!(gui.state.frequency_valid);
    }
}

#[test]
fn test_concurrent_validation() {
    let mut gui = MicrowaveGUI::default();

    gui.begin_update();
    gui.set_frequency("2.4e9".to_string());
    gui.set_z0("50".to_string());
    gui.set_load("75".to_string());
    gui.end_update();

    assert!(gui.state.frequency_valid);
    assert!(gui.state.z0_valid);
    assert!(gui.state.load_valid);
    assert!(gui.state.is_valid());
}

#[test]
fn test_validation_state_persistence() {
    let mut gui = MicrowaveGUI::default();

    gui.set_frequency("2.4e9".to_string());
    assert!(gui.state.frequency_valid);

    gui.set_frequency("invalid".to_string());
    assert!(!gui.state.frequency_valid);

    gui.set_frequency("5.8e9".to_string());
    assert!(gui.state.frequency_valid);

    assert_eq!(gui.frequency, "5.8e9");
}
