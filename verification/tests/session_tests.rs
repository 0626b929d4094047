use hydra_coop::config::Config;
use hydra_coop::defaults::instance_count_in_range;
use hydra_coop::env_vars::env_insert;
use hydra_coop::errors::HydraError;
use hydra_coop::input_mux::{DeviceIdentifier, InputAssignment};
use hydra_coop::instance_manager::{
    check_executable, instance_dir_name, instance_environment, proton_lookup_failure, InstanceManagerError,
};
use hydra_coop::logging::{parse_level, LogLevel};
use hydra_coop::network_bridge::{bridge_address, tap_address, tap_interface_name};
use hydra_coop::proton_integration::{
    is_pe_header, is_proton_dir_name, library_path_from_vdf_line, unescape_backslashes, ProtonError,
};
use hydra_coop::session::{
    check_instance_count, fit_config_to_cli, initial_player_count, padded_input_mappings, player_ports, port_mappings,
    resolve_device_names,
};
use std::path::PathBuf;

#[test]
fn test_is_windows_binary_mz_header() {
    assert!(is_pe_header(b"MZ This is a test"));
}

#[test]
fn test_is_windows_binary_other_header() {
    assert!(!is_pe_header(b"PK This is a test"));
}

#[test]
fn test_is_windows_binary_empty_file() {
    assert!(!is_pe_header(b""));
    assert!(!is_pe_header(b"M"));
}

#[test]
fn proton_directory_names() {
    assert!(is_proton_dir_name("Proton 8.0"));
    assert!(is_proton_dir_name("Proton - Experimental"));
    assert!(!is_proton_dir_name("proton"));
    assert!(!is_proton_dir_name("Steam Linux Runtime"));
}

#[test]
fn vdf_library_lines() {
    assert_eq!(
        library_path_from_vdf_line("\t\t\"path\"\t\t\"/mnt/games/SteamLibrary\""),
        Some("/mnt/games/SteamLibrary".to_string())
    );
    assert_eq!(
        library_path_from_vdf_line("  \"path\"  \"D:\\\\Games\\\\Steam\""),
        Some("D:/Games/Steam".to_string())
    );
    assert_eq!(library_path_from_vdf_line("\"path\""), Some("".to_string()));
    assert_eq!(library_path_from_vdf_line("\t\"label\"\t\"\""), None);
    assert_eq!(library_path_from_vdf_line("x \"path\" \"/a\""), None);
}

#[test]
fn backslash_pairs_become_slashes() {
    assert_eq!(unescape_backslashes("a\\\\b\\\\\\c"), "a/b/\\c");
    assert_eq!(unescape_backslashes(""), "");
}

#[test]
fn instance_count_checks() {
    assert!(check_instance_count(1).is_ok());
    assert!(check_instance_count(8).is_ok());
    match check_instance_count(0) {
        Err(HydraError::Validation(m)) => assert_eq!(m, "Number of instances must be at least 1"),
        other => panic!("unexpected {:?}", other),
    }
    match check_instance_count(9) {
        Err(HydraError::Validation(m)) => assert_eq!(m, "Number of instances (9) exceeds maximum (8)"),
        other => panic!("unexpected {:?}", other),
    }
    assert!(instance_count_in_range(4));
    assert!(!instance_count_in_range(0));
}

#[test]
fn cli_fills_missing_mappings_and_ports() {
    let mut c = Config::default_config();
    fit_config_to_cli(&mut c, PathBuf::from("/games/g.exe"), 4);
    assert_eq!(c.game_paths, vec![PathBuf::from("/games/g.exe")]);
    assert_eq!(c.input_mappings, vec!["Auto-detect"; 4]);
    assert_eq!(c.network_ports, vec![7777, 7778, 7779, 7780]);
    assert_eq!(c.window_layout, "horizontal");
}

#[test]
fn cli_keeps_enough_ports() {
    let mut c = Config::default_config();
    c.network_ports = vec![];
    fit_config_to_cli(&mut c, PathBuf::from("/g"), 2);
    assert_eq!(c.network_ports, vec![7777, 7778]);
    let mut d = Config::default_config();
    fit_config_to_cli(&mut d, PathBuf::from("/g"), 1);
    assert_eq!(d.network_ports, vec![7777, 7778]);
    assert_eq!(d.input_mappings.len(), 2);
}

fn dev(name: &str) -> DeviceIdentifier {
    DeviceIdentifier { name: name.to_string(), phys: None, bustype: 0, vendor_id: 0, product_id: 0, version: 0 }
}

#[test]
fn device_names_become_assignments() {
    let available = vec![dev("Pad"), dev("Keyboard")];
    let names = vec!["Keyboard".to_string(), "auto".to_string(), "Missing".to_string()];
    let r = resolve_device_names(&names, &available, 4);
    assert_eq!(r.len(), 4);
    assert!(matches!(&r[0], (0, InputAssignment::Device(d)) if d.name == "Keyboard"));
    assert!(matches!(&r[1], (1, InputAssignment::AutoDetect)));
    assert!(matches!(&r[2], (2, InputAssignment::NoDevice)));
    assert!(matches!(&r[3], (3, InputAssignment::AutoDetect)));
}

#[test]
fn relay_port_pairs() {
    let r = port_mappings(3, &vec![Some(10001), None, Some(10003)], &vec![7777, 7778]);
    assert_eq!(r, vec![(7777, 10001)]);
    let r = port_mappings(2, &vec![Some(1), Some(2)], &vec![5, 6, 7]);
    assert_eq!(r, vec![(5, 1), (6, 2)]);
}

#[test]
fn front_end_defaults() {
    assert_eq!(player_ports(3), vec![7777, 7778, 7779]);
    assert_eq!(padded_input_mappings(vec!["Pad".to_string()], 3), vec!["Pad", "Auto-detect", "Auto-detect"]);
    assert_eq!(padded_input_mappings(vec!["a".to_string(), "b".to_string()], 1), vec!["a", "b"]);
    let mut c = Config::default_config();
    assert_eq!(initial_player_count(&c), 2);
    c.input_mappings = vec!["x".to_string(); 12];
    assert_eq!(initial_player_count(&c), 8);
    c.input_mappings.clear();
    assert_eq!(initial_player_count(&c), 1);
}

#[test]
fn log_level_names() {
    assert_eq!(parse_level("DEBUG"), LogLevel::Debug);
    assert_eq!(parse_level("warn"), LogLevel::Warn);
    assert_eq!(parse_level("Trace"), LogLevel::Trace);
    assert_eq!(parse_level("error"), LogLevel::Error);
    assert_eq!(parse_level("verbose"), LogLevel::Info);
}

#[test]
fn instance_names_and_environment() {
    assert_eq!(instance_dir_name(5), "instance_5");
    let env = instance_environment(3, true);
    assert_eq!(
        env,
        vec![
            ("HYDRA_INSTANCE_PORT".to_string(), "8083".to_string()),
            ("HYDRA_INSTANCE_INDEX".to_string(), "3".to_string()),
        ]
    );
    assert_eq!(instance_environment(0, false), vec![("HYDRA_INSTANCE_INDEX".to_string(), "0".to_string())]);
    assert!(matches!(
        proton_lookup_failure(ProtonError::ProtonNotFound("x".to_string())),
        InstanceManagerError::ProtonPathNotFound
    ));
}

#[test]
fn bridge_addresses() {
    assert_eq!(bridge_address(), "192.168.100.1/24");
    assert_eq!(tap_interface_name(2), "hydra_tap_2");
    assert_eq!(tap_address(0), "192.168.100.2/24");
}

#[test]
fn environment_insert_replaces_value() {
    let mut env = vec![("A".to_string(), "1".to_string())];
    env_insert(&mut env, "B".to_string(), "2".to_string());
    env_insert(&mut env, "A".to_string(), "3".to_string());
    assert_eq!(env, vec![("A".to_string(), "3".to_string()), ("B".to_string(), "2".to_string())]);
}

#[test]
fn error_constructors() {
    assert!(matches!(HydraError::application("boom".to_string()), HydraError::Application(m) if m == "boom"));
    assert!(matches!(HydraError::validation("bad".to_string()), HydraError::Validation(m) if m == "bad"));
}

#[test]
fn cli_fitted_default_config_validates() {
    for n in 1..=8 {
        let mut c = Config::default_config();
        fit_config_to_cli(&mut c, PathBuf::from("/"), n);
        assert!(c.validate().is_ok(), "{} players", n);
    }
}

#[test]
fn executable_checks_in_order() {
    match check_executable("/g", false, false, false) {
        Err(HydraError::Validation(m)) => assert_eq!(m, "Executable not found: /g"),
        other => panic!("unexpected {:?}", other),
    }
    match check_executable("/g", true, false, true) {
        Err(HydraError::Validation(m)) => assert_eq!(m, "Path is not a file: /g"),
        other => panic!("unexpected {:?}", other),
    }
    match check_executable("/g", true, true, false) {
        Err(HydraError::Validation(m)) => assert_eq!(m, "File is not executable: /g"),
        other => panic!("unexpected {:?}", other),
    }
    assert!(check_executable("/g", true, true, true).is_ok());
}
