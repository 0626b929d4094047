use hydra_coop::audio_manager::{AudioManager, AudioSystem};
use hydra_coop::errors::HydraError;
use hydra_coop::compatibility_checker::{
    compatibility_probe_files, CompatibilityChecker, CompatibilityIssue, IssueSeverity,
};
use hydra_coop::game_detection::{GameConfiguration, InstanceSeparation, WorkingDirStrategy};
use hydra_coop::gamepad_manager::{ControllerType, GamepadManager};
use hydra_coop::input_mux::DeviceIdentifier;
use hydra_coop::universal_launcher::{
    environment_variables, essential_dirs, extension_of, instance_separation, instance_stats, is_essential_file,
    launch_arguments, working_dir_plan, InstanceDirs, WorkingDirPlan,
};

fn config(ports: Vec<u16>) -> GameConfiguration {
    GameConfiguration {
        ports,
        layout: "horizontal".to_string(),
        launch_args: vec!["-x".to_string()],
        environment_vars: vec![("A".to_string(), "1".to_string())],
        working_dir_strategy: WorkingDirStrategy::Current,
        instance_separation: InstanceSeparation::Environment,
    }
}

#[test]
fn test_working_directory_strategies() {
    assert_eq!(
        working_dir_plan(WorkingDirStrategy::SeparateDirectories, 0),
        WorkingDirPlan::InGameDir("instance_0".to_string())
    );
    assert_eq!(
        working_dir_plan(WorkingDirStrategy::Temporary, 12),
        WorkingDirPlan::InTempDir("hydra_game_instance_12".to_string())
    );
    assert_eq!(working_dir_plan(WorkingDirStrategy::GameDirectory, 3), WorkingDirPlan::GameDir);
    assert_eq!(working_dir_plan(WorkingDirStrategy::Current, 3), WorkingDirPlan::CurrentDir);
}

#[test]
fn test_environment_variable_setup() {
    let env = environment_variables(&config(vec![8080]), 0);
    let expected: Vec<(String, String)> = [
        ("A", "1"),
        ("HYDRA_INSTANCE_ID", "0"),
        ("HYDRA_INSTANCE_COUNT", "1"),
        ("HYDRA_PORT", "8080"),
        ("GAME_PORT", "8080"),
        ("SERVER_PORT", "8080"),
        ("DISABLE_STEAM_OVERLAY", "1"),
        ("DISABLE_FULLSCREEN", "1"),
        ("FORCE_WINDOWED", "1"),
    ]
    .iter()
    .map(|(k, v)| (k.to_string(), v.to_string()))
    .collect();
    assert_eq!(env, expected);
}

#[test]
fn environment_without_ports() {
    let env = environment_variables(&config(vec![]), 7);
    assert_eq!(env.len(), 6);
    assert_eq!(env[1], ("HYDRA_INSTANCE_ID".to_string(), "7".to_string()));
}

#[test]
fn launch_arguments_of_an_instance() {
    assert_eq!(
        launch_arguments(&config(vec![9000, 9001]), 2),
        vec!["-x", "-instance-id=2", "-hydra-instance=2", "-port=9000", "-server-port=9000", "-windowed", "-noborder"]
    );
    assert_eq!(
        launch_arguments(&config(vec![]), 1),
        vec!["-x", "-instance-id=1", "-hydra-instance=1", "-windowed", "-noborder"]
    );
}

fn dirs() -> InstanceDirs {
    InstanceDirs {
        working_dir: "/w".to_string(),
        user_data: "/w/userdata".to_string(),
        saves: "/w/saves".to_string(),
        config: "/w/config".to_string(),
        cache: "/w/cache".to_string(),
    }
}

#[test]
fn separation_plans() {
    let (create, env) = instance_separation(InstanceSeparation::NoSeparation, 1, &dirs());
    assert!(!create && env.is_empty());
    let (create, env) = instance_separation(InstanceSeparation::Environment, 4, &dirs());
    assert!(!create);
    assert_eq!(env[0], ("INSTANCE_ID".to_string(), "4".to_string()));
    assert_eq!(env[2], ("SAVE_DIR".to_string(), "/w/saves".to_string()));
    let (create, env) = instance_separation(InstanceSeparation::Full, 4, &dirs());
    assert!(create);
    assert_eq!(env[0], ("APPDATA".to_string(), "/w/config".to_string()));
    assert_eq!(env[3], ("HOME".to_string(), "/w".to_string()));
}

#[test]
fn file_extensions() {
    assert_eq!(extension_of("game.exe"), Some("exe".to_string()));
    assert_eq!(extension_of("archive.tar.gz"), Some("gz".to_string()));
    assert_eq!(extension_of(".hidden"), None);
    assert_eq!(extension_of("noext"), None);
    assert_eq!(extension_of("trailing."), Some("".to_string()));
    assert!(is_essential_file("engine.dll"));
    assert!(is_essential_file("settings.ini"));
    assert!(!is_essential_file("movie.mp4"));
    assert!(!is_essential_file("README"));
    assert_eq!(essential_dirs(), vec!["Data", "Config", "Plugins", "Mods"]);
}

#[test]
fn stats_of_active_instances() {
    let s = instance_stats(3);
    assert_eq!((s.total_instances, s.running_instances, s.total_memory_mb), (3, 3, 300));
}

fn issue(severity: IssueSeverity) -> CompatibilityIssue {
    CompatibilityIssue { severity, description: String::new(), workaround: None }
}

#[test]
fn score_subtracts_penalties_and_stops_at_zero() {
    assert_eq!(CompatibilityChecker::calculate_score(&[]), 100);
    assert_eq!(
        CompatibilityChecker::calculate_score(&[issue(IssueSeverity::Info), issue(IssueSeverity::Warning)]),
        80
    );
    assert_eq!(
        CompatibilityChecker::calculate_score(&[
            issue(IssueSeverity::Critical),
            issue(IssueSeverity::Critical),
            issue(IssueSeverity::Critical),
        ]),
        0
    );
}

#[test]
fn analysis_reports_probe_files() {
    let names = compatibility_probe_files();
    let mut present = vec![false; names.len()];
    present[names.iter().position(|n| *n == "EasyAntiCheat.exe").unwrap()] = true;
    present[names.iter().position(|n| *n == "launcher.exe").unwrap()] = true;
    let report =
        CompatibilityChecker::analyze_game("/g/OnlineGame.exe", Some("OnlineGame.exe"), &present).unwrap();
    assert_eq!(report.game_path, "/g/OnlineGame.exe");
    assert_eq!(report.issues.len(), 2);
    assert_eq!(report.issues[0].severity, IssueSeverity::Critical);
    assert_eq!(report.issues[0].description, "Anti-cheat system detected: EasyAntiCheat.exe");
    assert_eq!(report.issues[1].severity, IssueSeverity::Info);
    assert_eq!(report.compatibility_score, 55);
    assert_eq!(
        report.recommendations,
        vec!["Use direct game executable instead of launcher", "Ensure network ports are properly configured"]
    );
}

#[test]
fn clean_game_scores_full_marks() {
    let report = CompatibilityChecker::analyze_game("/g/solo", None, &[]).unwrap();
    assert_eq!(report.compatibility_score, 100);
    assert!(report.issues.is_empty() && report.recommendations.is_empty());
}

fn pad(name: &str, vendor: u16, product: u16) -> DeviceIdentifier {
    DeviceIdentifier { name: name.to_string(), phys: None, bustype: 3, vendor_id: vendor, product_id: product, version: 0 }
}

#[test]
fn gamepad_classification() {
    let m = GamepadManager::new(true);
    assert!(m.is_gamepad_vendor_id(0x054c));
    assert!(!m.is_gamepad_vendor_id(0x1234));
    assert!(m.is_gamepad_device(&pad("Generic USB Gamepad", 0x1234, 1)));
    assert!(m.is_gamepad_device(&pad("USB Keyboard", 0x045e, 1)));
    assert!(!m.is_gamepad_device(&pad("USB Keyboard", 0x1234, 1)));
    assert_eq!(m.detect_controller_type(&pad("Microsoft X-Box 360 pad", 0x045e, 0x028e)), ControllerType::Xbox360);
    assert_eq!(m.detect_controller_type(&pad("Sony DualSense", 0x054c, 1)), ControllerType::PS5);
    assert_eq!(m.detect_controller_type(&pad("Steam Controller", 0x28de, 1)), ControllerType::SteamController);
    assert_eq!(m.detect_controller_type(&pad("Some Pad", 1, 1)), ControllerType::Generic);
    assert_eq!(GamepadManager::steam_config_file_name(&pad("x", 0x045e, 0x02ea)), "045e_02ea.vdf");
}

#[test]
fn gamepad_scan_and_assignment() {
    let mut m = GamepadManager::new(false);
    let devices = vec![pad("Xbox pad", 0x045e, 1), pad("Keyboard", 0x1111, 2), pad("Xbox pad", 0x045e, 1)];
    let configs = vec![Some("/c/045e_0001.vdf".to_string()), None, None];
    assert!(m.scan_gamepads(&devices, &configs).is_ok());
    assert_eq!(m.gamepad_count(), 1);
    assert_eq!(m.get_gamepad_assignments(4).len(), 1);
    assert_eq!(m.get_gamepad_assignments(0).len(), 0);
    let info = m.analyze_gamepad(&devices[0], Some("/c/x.vdf".to_string())).unwrap();
    assert_eq!(info.steam_config_path, None);
    assert_eq!(info.capabilities.button_count, 14);
}

#[test]
fn gamepad_settings_per_game() {
    let m = GamepadManager::new(true);
    assert_eq!(
        m.optimize_for_game("Borderlands 3").unwrap(),
        vec![
            ("GAMEPAD_DEADZONE".to_string(), "0.15".to_string()),
            ("GAMEPAD_SENSITIVITY".to_string(), "1.2".to_string()),
        ]
    );
    assert_eq!(m.optimize_for_game("CALL OF DUTY").unwrap()[0].0, "GAMEPAD_AIM_ASSIST");
    assert_eq!(m.optimize_for_game("Tetris").unwrap(), vec![("GAMEPAD_ENABLED".to_string(), "1".to_string())]);
}

#[test]
fn pulseaudio_sinks_and_routing() {
    let mut a = AudioManager::new(AudioSystem::PulseAudio).unwrap();
    let c = a.sink_command(1).unwrap();
    assert_eq!(c.program, "pactl");
    assert_eq!(c.args[2], "sink_name=hydra_game_1");
    assert_eq!(c.args[3], "sink_properties=device.description=\"Hydra Co-op Game Instance 1\"");
    a.create_virtual_sinks(2, vec![Ok(true), Ok(false)]).unwrap();
    let r = a.route_command(0, 4321).unwrap();
    assert_eq!(r.program, "bash");
    assert_eq!(
        r.args,
        vec![
            "-c".to_string(),
            "pactl list short sink-inputs | grep 4321 | cut -f1 | xargs -I{} pactl move-sink-input {} hydra_game_0"
                .to_string()
        ]
    );
    assert!(a.route_command(1, 4321).is_none());
    let cleanup = a.cleanup_commands();
    assert_eq!(cleanup.len(), 1);
    assert_eq!(cleanup[0].args, vec!["unload-module", "module-null-sink"]);
}

#[test]
fn pipewire_and_alsa_sinks() {
    let mut p = AudioManager::new(AudioSystem::PipeWire).unwrap();
    assert_eq!(p.sink_command(0).unwrap().program, "pw-cli");
    p.create_virtual_sinks(1, vec![Ok(true)]).unwrap();
    assert!(p.route_command(0, 1).is_none());
    assert_eq!(p.cleanup_commands()[0].args, vec!["destroy", "hydra_game_0"]);
    let mut alsa = AudioManager::new(AudioSystem::ALSA).unwrap();
    assert!(alsa.sink_command(0).is_none());
    alsa.create_virtual_sinks(2, vec![Ok(true), Ok(true)]).unwrap();
    assert!(alsa.cleanup_commands().is_empty());
    assert_eq!(alsa.audio_system(), AudioSystem::ALSA);
}

#[test]
fn sink_creation_stops_at_a_command_that_cannot_run() {
    let mut a = AudioManager::new(AudioSystem::PipeWire).unwrap();
    let outcomes = vec![
        Ok(true),
        Err(std::io::Error::new(std::io::ErrorKind::NotFound, "pw-cli missing")),
        Ok(true),
    ];
    match a.create_virtual_sinks(3, outcomes) {
        Err(HydraError::Io(e)) => assert_eq!(e.kind(), std::io::ErrorKind::NotFound),
        other => panic!("unexpected {:?}", other),
    }
    let cleanup = a.cleanup_commands();
    assert_eq!(cleanup.len(), 1);
    assert_eq!(cleanup[0].args, vec!["destroy", "hydra_game_0"]);
}
