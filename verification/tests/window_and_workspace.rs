use grinta::panel::{
    became_key_event, delegate_event_for, focus_event_name, main_window_label, resigned_key_event,
    toggle_action, ToggleAction,
};
use grinta::theme::{
    appearance_outcome, appearance_value, material_from_name, vibrancy_outcome, VibrancyMaterial,
};
use grinta::workspace::{
    activation_outcome, find_first_named, frontmost_outcome, FrontmostReading, WorkspaceState,
};

#[test]
fn material_names_map_and_default_to_dark() {
    let cases = [
        ("dark", VibrancyMaterial::Dark),
        ("light", VibrancyMaterial::Light),
        ("appearance_based", VibrancyMaterial::AppearanceBased),
        ("titlebar", VibrancyMaterial::Titlebar),
        ("selection", VibrancyMaterial::Selection),
        ("menu", VibrancyMaterial::Menu),
        ("popover", VibrancyMaterial::Popover),
        ("sidebar", VibrancyMaterial::Sidebar),
        ("medium_light", VibrancyMaterial::MediumLight),
        ("ultra_dark", VibrancyMaterial::UltraDark),
        ("hud_window", VibrancyMaterial::HudWindow),
        ("no_such_material", VibrancyMaterial::Dark),
    ];
    for (name, material) in cases {
        assert_eq!(material_from_name(name), material);
    }
}

#[test]
fn vibrancy_outcome_orders_its_errors() {
    assert_eq!(
        vibrancy_outcome(false, None, None).unwrap_err(),
        "Window not found"
    );
    assert_eq!(
        vibrancy_outcome(true, Some("boom".to_string()), None).unwrap_err(),
        "Failed to clear vibrancy: boom"
    );
    assert_eq!(
        vibrancy_outcome(true, None, Some("bang".to_string())).unwrap_err(),
        "Failed to apply vibrancy: bang"
    );
    assert_eq!(vibrancy_outcome(true, None, None).unwrap(), "OK set vibrancy");
}

#[test]
fn appearance_values_and_outcome() {
    assert_eq!(appearance_value("dark"), "darkAqua");
    assert_eq!(appearance_value("light"), "aqua");
    assert_eq!(appearance_value("anything"), "darkAqua");
    assert_eq!(appearance_outcome(true, true).unwrap(), "OK set appearance");
    assert_eq!(
        appearance_outcome(true, false).unwrap_err(),
        "Failed to get window handle"
    );
    assert_eq!(
        appearance_outcome(false, true).unwrap_err(),
        "Window not found"
    );
}

#[test]
fn toggle_hides_only_visible_panels() {
    assert_eq!(toggle_action(true), ToggleAction::Hide);
    assert_eq!(toggle_action(false), ToggleAction::ShowAndFocus);
    assert_eq!(main_window_label(), "main");
    assert_eq!(focus_event_name(), "focus");
}

#[test]
fn panel_delegate_events_carry_the_label() {
    assert_eq!(became_key_event("main"), "main_panel_did_become_key");
    assert_eq!(resigned_key_event("main"), "main_panel_did_resign_key");
    assert_eq!(
        delegate_event_for("window_did_become_key", "main"),
        Some("main_panel_did_become_key".to_string())
    );
    assert_eq!(
        delegate_event_for("window_did_resign_key", "main"),
        Some("main_panel_did_resign_key".to_string())
    );
    assert_eq!(delegate_event_for("window_did_move", "main"), None);
}

#[test]
fn first_named_app_wins() {
    let names = vec![
        None,
        Some("Safari".to_string()),
        Some("Mail".to_string()),
        Some("Safari".to_string()),
    ];
    assert_eq!(find_first_named(&names, "Safari"), Some(1));
    assert_eq!(find_first_named(&names, "Mail"), Some(2));
    assert_eq!(find_first_named(&names, "Notes"), None);
    assert_eq!(find_first_named(&Vec::new(), "Safari"), None);
}

#[test]
fn activation_failure_names_the_application() {
    assert_eq!(activation_outcome(true, "Safari").unwrap(), true);
    assert_eq!(
        activation_outcome(false, "Safari").unwrap_err(),
        "Application 'Safari' not found or could not be activated"
    );
}

#[test]
fn frontmost_readings_have_fixed_answers() {
    assert_eq!(
        frontmost_outcome(FrontmostReading::NoApplication).unwrap_err(),
        "No frontmost application found"
    );
    assert_eq!(
        frontmost_outcome(FrontmostReading::NoName).unwrap_err(),
        "Could not get name of frontmost application"
    );
    assert_eq!(
        frontmost_outcome(FrontmostReading::Name("Mail".to_string())).unwrap(),
        "Mail"
    );
    let _state = WorkspaceState::new();
}
