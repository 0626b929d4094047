use hydra_coop::adaptive_config::{get_game_adaptation, record_adaptation_success, GameAdaptation};
use hydra_coop::game_detection::{
    configure_for_engine, detect_engine, engine_marker_files, profile_from_facts, DirEntryInfo, GameConfiguration, GameDetector, GameEngine,
    GameDetectionError, GameFacts, GameProfile, InstanceSeparation, MultiInstanceSupport, WorkingDirStrategy,
};
use std::time::{Duration, SystemTime};

fn facts(name: Option<&str>) -> GameFacts {
    GameFacts {
        file_name: name.map(|s| s.to_string()),
        markers_present: vec![false; 15],
        dir_entries: Some(vec![]),
        is_windows_binary: false,
        file_size: 0,
    }
}

/// The components of a path, each as bytes.
fn path_key(p: &str) -> Vec<Vec<u8>> {
    std::path::Path::new(p).components().map(|c| c.as_os_str().to_str().unwrap().as_bytes().to_vec()).collect()
}

fn marker_index(name: &str) -> usize {
    engine_marker_files().iter().position(|m| *m == name).unwrap()
}

#[test]
fn test_unity_detection() {
    let mut f = facts(Some("TestGame.x86_64"));
    f.dir_entries = Some(vec![DirEntryInfo { name: "TestGame_Data".to_string(), is_dir: true }]);
    f.markers_present[marker_index("UnityPlayer.dll")] = true;
    assert!(matches!(detect_engine(&f), GameEngine::Unity));
}

#[test]
fn unity_data_folder_alone_is_enough() {
    let mut f = facts(Some("game"));
    f.dir_entries = Some(vec![DirEntryInfo { name: "TestGame_Data".to_string(), is_dir: true }]);
    assert!(matches!(detect_engine(&f), GameEngine::Unity));
    let mut g = facts(Some("game"));
    g.dir_entries = Some(vec![DirEntryInfo { name: "TestGame_Data".to_string(), is_dir: false }]);
    assert!(matches!(detect_engine(&g), GameEngine::Unknown));
}

#[test]
fn engine_markers_are_checked_in_order() {
    let mut f = facts(Some("game"));
    f.markers_present[marker_index("Content")] = true;
    assert!(matches!(detect_engine(&f), GameEngine::UnrealEngine));
    f.markers_present[marker_index("Managed")] = true;
    assert!(matches!(detect_engine(&f), GameEngine::Unity));
    let mut g = facts(Some("game"));
    g.markers_present[marker_index("project.godot")] = true;
    assert!(matches!(detect_engine(&g), GameEngine::Godot));
    let mut h = facts(Some("game"));
    h.markers_present[marker_index("data.win")] = true;
    assert!(matches!(detect_engine(&h), GameEngine::GameMaker));
}

#[test]
fn engine_packages_in_directory() {
    let mut f = facts(Some("game"));
    f.dir_entries = Some(vec![DirEntryInfo { name: "Game-WindowsNoEditor.pak".to_string(), is_dir: false }]);
    assert!(matches!(detect_engine(&f), GameEngine::UnrealEngine));
    let mut g = facts(Some("game"));
    g.dir_entries = Some(vec![DirEntryInfo { name: "game.pck".to_string(), is_dir: false }]);
    assert!(matches!(detect_engine(&g), GameEngine::Godot));
    let mut h = facts(Some("game"));
    h.dir_entries = Some(vec![DirEntryInfo { name: "audiogroup1.dat".to_string(), is_dir: false }]);
    assert!(matches!(detect_engine(&h), GameEngine::GameMaker));
}

#[test]
fn engine_from_executable_name() {
    assert!(matches!(detect_engine(&facts(Some("MyUnityGame.exe"))), GameEngine::Unity));
    assert!(matches!(detect_engine(&facts(Some("ShooterUE4.exe"))), GameEngine::UnrealEngine));
    assert!(matches!(detect_engine(&facts(Some("Unreal_Tournament"))), GameEngine::UnrealEngine));
    assert!(matches!(detect_engine(&facts(Some("tetris"))), GameEngine::Unknown));
    assert!(matches!(detect_engine(&facts(None)), GameEngine::Unknown));
}

#[test]
fn test_game_profile_generation() {
    let mut detector = GameDetector::new();
    let profile = detector.detect_game(&path_key("/tmp/x/TestGame.exe"), Ok(facts(Some("TestGame.exe")))).unwrap();
    assert_eq!(profile.executable_pattern, "TestGame.exe");
    assert!(!profile.default_ports.is_empty());
}

#[test]
fn profile_of_windows_unity_game() {
    let mut f = facts(Some("big.exe"));
    f.markers_present[0] = true;
    f.is_windows_binary = true;
    f.file_size = 200 * 1024 * 1024;
    let p = profile_from_facts(&f);
    assert!(matches!(p.engine, Some(GameEngine::Unity)));
    assert_eq!(p.default_ports, vec![7777, 7778, 7779, 7780]);
    assert_eq!(p.default_layout, "horizontal");
    assert_eq!(p.multi_instance_support, MultiInstanceSupport::Configurable);
    assert_eq!(p.launch_args, vec!["-force-opengl", "-screen-fullscreen", "0"]);
    assert_eq!(p.working_dir_strategy, WorkingDirStrategy::SeparateDirectories);
    assert_eq!(
        p.environment_vars,
        vec![
            ("UNITY_MIXED_CALLSTACK".to_string(), "1".to_string()),
            ("WINEDEBUG".to_string(), "-all".to_string()),
            ("HYDRA_LARGE_GAME".to_string(), "1".to_string()),
        ]
    );
}

#[test]
fn profile_of_godot_game() {
    let mut f = facts(None);
    f.markers_present[10] = true;
    f.file_size = 100 * 1024 * 1024;
    let p = profile_from_facts(&f);
    assert_eq!(p.executable_pattern, "unknown");
    assert_eq!(p.multi_instance_support, MultiInstanceSupport::Native);
    assert_eq!(p.launch_args, vec!["--windowed"]);
    assert_eq!(p.working_dir_strategy, WorkingDirStrategy::GameDirectory);
    assert!(p.environment_vars.is_empty());
}

#[test]
fn detection_is_cached_per_path() {
    let mut detector = GameDetector::new();
    assert!(detector.cached_profile(&path_key("/games/a.exe")).is_none());
    let first = detector.detect_game(&path_key("/games/a.exe"), Ok(facts(Some("a.exe")))).unwrap();
    let mut other = facts(Some("MyUnityGame.exe"));
    other.markers_present[0] = true;
    let second = detector.detect_game(&path_key("/games/a.exe"), Ok(other.clone())).unwrap();
    assert_eq!(second.executable_pattern, first.executable_pattern);
    assert!(matches!(second.engine, Some(GameEngine::Unknown)));
    let b = detector.detect_game(&path_key("/games/b.exe"), Ok(other)).unwrap();
    assert!(matches!(b.engine, Some(GameEngine::Unity)));
    assert_eq!(detector.cached_profile(&path_key("/games/a.exe")).unwrap().executable_pattern, "a.exe");
    assert_eq!(detector.cached_profile(&path_key("/games//a.exe/")).unwrap().executable_pattern, "a.exe");
    assert!(detector.cached_profile(&path_key("/games/A.exe")).is_none());
}

#[test]
fn failed_detection_caches_nothing() {
    let mut detector = GameDetector::new();
    let failed = detector.detect_game(
        &path_key("/games/new.exe"),
        Err(GameDetectionError::AnalysisFailed("unreadable".to_string())),
    );
    assert!(matches!(failed, Err(GameDetectionError::AnalysisFailed(m)) if m == "unreadable"));
    assert!(detector.cached_profile(&path_key("/games/new.exe")).is_none());
    let later = detector.detect_game(&path_key("/games/new.exe"), Ok(facts(Some("new.exe")))).unwrap();
    assert_eq!(later.executable_pattern, "new.exe");
    assert_eq!(detector.cached_profile(&path_key("/games/new.exe")).unwrap().executable_pattern, "new.exe");
    let again = detector.detect_game(
        &path_key("/games/new.exe"),
        Err(GameDetectionError::AnalysisFailed("gone".to_string())),
    );
    assert_eq!(again.unwrap().executable_pattern, "new.exe");
}

fn profile(ports: Vec<u16>, support: MultiInstanceSupport) -> GameProfile {
    GameProfile {
        executable_pattern: "test.exe".to_string(),
        engine: Some(GameEngine::Unity),
        default_ports: ports,
        default_layout: "horizontal".to_string(),
        multi_instance_support: support,
        launch_args: vec!["-a".to_string()],
        environment_vars: vec![("K".to_string(), "V".to_string())],
        working_dir_strategy: WorkingDirStrategy::SeparateDirectories,
    }
}

#[test]
fn configuring_for_engine_keeps_or_replaces_arguments() {
    let mut unity = profile(vec![7777], MultiInstanceSupport::Unsupported);
    configure_for_engine(&mut unity);
    assert_eq!(unity.launch_args, vec!["-force-opengl", "-screen-fullscreen", "0"]);
    assert_eq!(
        unity.environment_vars,
        vec![("K".to_string(), "V".to_string()), ("UNITY_MIXED_CALLSTACK".to_string(), "1".to_string())]
    );
    assert_eq!(unity.multi_instance_support, MultiInstanceSupport::Configurable);
    assert_eq!(unity.default_ports, vec![7777]);

    let mut gm = profile(vec![7777], MultiInstanceSupport::Unsupported);
    gm.engine = Some(GameEngine::GameMaker);
    gm.working_dir_strategy = WorkingDirStrategy::GameDirectory;
    configure_for_engine(&mut gm);
    assert_eq!(gm.launch_args, vec!["-a"]);
    assert_eq!(gm.environment_vars, vec![("K".to_string(), "V".to_string())]);
    assert_eq!(gm.multi_instance_support, MultiInstanceSupport::RequiresWorkarounds);
    assert_eq!(gm.working_dir_strategy, WorkingDirStrategy::SeparateDirectories);

    let mut none = profile(vec![7777], MultiInstanceSupport::Native);
    none.engine = None;
    none.working_dir_strategy = WorkingDirStrategy::GameDirectory;
    configure_for_engine(&mut none);
    assert_eq!(none.launch_args, vec!["-a"]);
    assert_eq!(none.multi_instance_support, MultiInstanceSupport::Configurable);
    assert_eq!(none.working_dir_strategy, WorkingDirStrategy::SeparateDirectories);
}

#[test]
fn recommended_config_extends_ports() {
    let d = GameDetector::new();
    let c = d.get_recommended_config(&profile(vec![7777, 7778], MultiInstanceSupport::Native), 4);
    assert_eq!(c.ports, vec![7777, 7778, 7779, 7780]);
    assert_eq!(c.instance_separation, InstanceSeparation::NoSeparation);
    assert_eq!(c.launch_args, vec!["-a"]);
    assert_eq!(c.environment_vars, vec![("K".to_string(), "V".to_string())]);
    let c = d.get_recommended_config(&profile(vec![], MultiInstanceSupport::Configurable), 2);
    assert_eq!(c.ports, vec![7778, 7779]);
    assert_eq!(c.instance_separation, InstanceSeparation::Environment);
}

#[test]
fn recommended_config_truncates_ports() {
    let d = GameDetector::new();
    let c = d.get_recommended_config(&profile(vec![1, 2, 3, 4], MultiInstanceSupport::Unsupported), 2);
    assert_eq!(c.ports, vec![1, 2]);
    assert_eq!(c.instance_separation, InstanceSeparation::Full);
    assert_eq!(c.layout, "horizontal");
}

fn configuration() -> GameConfiguration {
    GameConfiguration {
        ports: vec![7777],
        layout: "horizontal".to_string(),
        launch_args: vec![],
        environment_vars: vec![],
        working_dir_strategy: WorkingDirStrategy::SeparateDirectories,
        instance_separation: InstanceSeparation::Environment,
    }
}

#[test]
fn test_success_recording() {
    let mut list: Vec<GameAdaptation> = Vec::new();
    let config = configuration();
    record_adaptation_success(&mut list, "test_game".to_string(), &config, SystemTime::now(), 1000);
    assert_eq!(list.len(), 1);
    assert!(get_game_adaptation(&list, "test_game").is_some());
}

#[test]
fn repeated_success_counts_up() {
    let mut list: Vec<GameAdaptation> = Vec::new();
    let config = configuration();
    let t = SystemTime::UNIX_EPOCH + Duration::from_secs(10);
    record_adaptation_success(&mut list, "g".to_string(), &config, t, 1000);
    record_adaptation_success(&mut list, "g".to_string(), &config, t, 1000);
    record_adaptation_success(&mut list, "h".to_string(), &config, t, 5);
    assert_eq!(list.len(), 2);
    let g = get_game_adaptation(&list, "g").unwrap();
    assert_eq!(g.success_count, 2);
    assert_eq!(g.optimal_config.ports, vec![7777]);
    assert_eq!(g.optimal_config.working_dir_strategy, "SeparateDirectories");
    assert_eq!(g.optimal_config.separation_level, "Environment");
    assert_eq!(g.last_success, t);
    assert!(get_game_adaptation(&list, "missing").is_none());
}

use hydra_coop::adaptive_config::{is_known_failure, launch_settings, record_failure_entry, FailedConfig};

fn failure(game: &str, reason: String) -> FailedConfig {
    FailedConfig {
        game_id: game.to_string(),
        config: launch_settings(&configuration()),
        failure_reason: reason,
        failed_at: SystemTime::UNIX_EPOCH,
    }
}

#[test]
fn failures_are_bounded_and_newest_kept() {
    let mut failures: Vec<FailedConfig> = Vec::new();
    for i in 0..1000 {
        record_failure_entry(&mut failures, failure("g", format!("reason {}", i)));
    }
    assert_eq!(failures.len(), 1000);
    record_failure_entry(&mut failures, failure("g", "last".to_string()));
    assert_eq!(failures.len(), 901);
    assert_eq!(failures[0].failure_reason, "reason 100");
    assert_eq!(failures.last().unwrap().failure_reason, "last");
}

#[test]
fn known_failures_compare_settings_as_sets() {
    let failures = vec![failure("g", "x".to_string())];
    let mut settings = launch_settings(&configuration());
    assert!(is_known_failure(&failures, "g", &settings));
    settings.reverse();
    assert!(is_known_failure(&failures, "g", &settings));
    assert!(!is_known_failure(&failures, "h", &settings));
    settings[0].1 = "vertical".to_string();
    assert!(!is_known_failure(&failures, "g", &settings));
    assert_eq!(
        launch_settings(&configuration()),
        vec![
            ("working_dir".to_string(), "SeparateDirectories".to_string()),
            ("separation".to_string(), "Environment".to_string()),
            ("layout".to_string(), "horizontal".to_string()),
        ]
    );
}
