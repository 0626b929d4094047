use hydra_coop::compatibility_checker::{CompatibilityChecker, IssueSeverity};
use hydra_coop::game_detection::{engine_from, GameEngine, GameFacts};
use hydra_coop::gamepad_manager::{controller_type_for, gamepad_name_matches, optimizations_for, ControllerType};
use hydra_coop::logging::{level_for_lowercase, LogLevel};
use hydra_coop::window_manager::{layout_for_lowercase, Layout};

fn bare_facts() -> GameFacts {
    GameFacts { file_name: None, markers_present: vec![], dir_entries: None, is_windows_binary: false, file_size: 0 }
}

#[test]
fn engine_from_lowered_name() {
    let f = bare_facts();
    assert!(matches!(engine_from(&f, "myunitygame.exe"), GameEngine::Unity));
    assert!(matches!(engine_from(&f, "MyUnityGame.exe"), GameEngine::Unknown));
    assert!(matches!(engine_from(&f, "game-ue5-shipping"), GameEngine::UnrealEngine));
    let mut g = bare_facts();
    g.markers_present = vec![false, false, false, false, false, false, false, false, false, false, false, true];
    assert!(matches!(engine_from(&g, "myunitygame"), GameEngine::Godot));
}

#[test]
fn levels_and_layouts_of_lowered_names() {
    assert_eq!(level_for_lowercase("debug"), LogLevel::Debug);
    assert_eq!(level_for_lowercase("DEBUG"), LogLevel::Info);
    assert_eq!(layout_for_lowercase("grid3x1"), Layout::Grid3x1);
    assert_eq!(layout_for_lowercase("Vertical"), Layout::Horizontal);
}

#[test]
fn gamepad_words_of_lowered_names() {
    assert!(gamepad_name_matches("8bitdo pro 2"));
    assert!(!gamepad_name_matches("usb keyboard"));
    assert!(!gamepad_name_matches("XBOX PAD"));
    assert_eq!(controller_type_for("xbox wireless controller", 0x045e, 0x0b13), ControllerType::XboxOne);
    assert_eq!(controller_type_for("wireless controller", 0x054c, 0x028e), ControllerType::Xbox360);
    assert_eq!(controller_type_for("dualshock 4", 0x054c, 0x09cc), ControllerType::PS4);
    assert_eq!(controller_type_for("steam deck", 0x1234, 1), ControllerType::Generic);
    assert_eq!(optimizations_for("call of duty 2"), vec![
        ("GAMEPAD_AIM_ASSIST".to_string(), "1".to_string()),
        ("GAMEPAD_VIBRATION".to_string(), "1".to_string()),
    ]);
    assert_eq!(optimizations_for("BORDERLANDS"), vec![("GAMEPAD_ENABLED".to_string(), "1".to_string())]);
}

#[test]
fn report_from_lowered_name() {
    let mut present = vec![false; 10];
    present[5] = true;
    let r = CompatibilityChecker::analysis_report("/g/MULTIPLAYER.exe", "multiplayer.exe", &present);
    assert_eq!(r.issues.len(), 1);
    assert_eq!(r.issues[0].severity, IssueSeverity::Warning);
    assert_eq!(r.issues[0].description, "DRM system detected: denuvo.dll");
    assert_eq!(r.issues[0].workaround, Some("May require separate game installations per instance".to_string()));
    assert_eq!(r.compatibility_score, 85);
    assert_eq!(r.recommendations, vec!["Ensure network ports are properly configured"]);
    let upper = CompatibilityChecker::analysis_report("/g/MULTIPLAYER.exe", "MULTIPLAYER.exe", &present);
    assert!(upper.recommendations.is_empty());
}
