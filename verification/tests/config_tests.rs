use hydra_coop::config::Config;

#[test]
fn test_default_config() {
    let config = Config::default_config();
    assert_eq!(config.game_paths.len(), 0);
    assert_eq!(config.input_mappings, vec!["Auto-detect".to_string(), "Auto-detect".to_string()]);
    assert_eq!(config.window_layout, "horizontal".to_string());
    assert_eq!(config.network_ports, vec![7777, 7778]);
    assert_eq!(config.use_proton, false);
}

use hydra_coop::config::{ConfigError, ValidationError};
use std::path::PathBuf;

fn sample_config(paths: Vec<&str>, mappings: usize, ports: Vec<u16>) -> Config {
    let mut c = Config::default_config();
    c.game_paths = paths.into_iter().map(PathBuf::from).collect();
    c.input_mappings = (0..mappings).map(|_| "Auto-detect".to_string()).collect();
    c.network_ports = ports;
    c
}

#[test]
fn validate_rejects_missing_game_path() {
    let c = sample_config(vec![], 2, vec![7777]);
    assert!(matches!(c.validate(), Err(ConfigError::Validation(ValidationError::MissingGamePath))));
}

#[test]
fn validate_rejects_nonexistent_game_path() {
    let c = sample_config(vec!["/", "/definitely/not/here/hydra_game"], 2, vec![7777]);
    match c.validate() {
        Err(ConfigError::Validation(ValidationError::InvalidGamePath(p))) => {
            assert_eq!(p, PathBuf::from("/definitely/not/here/hydra_game"))
        },
        other => panic!("unexpected {:?}", other),
    }
}

#[test]
fn validate_accepts_existing_path() {
    let c = sample_config(vec!["/"], 2, vec![7777, 7778]);
    assert!(c.validate().is_ok());
}

#[test]
fn validate_with_reports_instance_count() {
    let c = sample_config(vec!["/game"], 0, vec![7777]);
    assert!(matches!(
        c.validate_with(None),
        Err(ConfigError::Validation(ValidationError::InvalidInstanceCount(0)))
    ));
    let c = sample_config(vec!["/game"], 9, vec![7777]);
    assert!(matches!(
        c.validate_with(None),
        Err(ConfigError::Validation(ValidationError::InvalidInstanceCount(9)))
    ));
}

#[test]
fn validate_with_reports_first_low_port() {
    let c = sample_config(vec!["/game"], 2, vec![7777, 80, 22]);
    assert!(matches!(
        c.validate_with(None),
        Err(ConfigError::Validation(ValidationError::InvalidNetworkPort(80)))
    ));
    let c = sample_config(vec!["/game"], 2, vec![1024]);
    assert!(c.validate_with(None).is_ok());
}

#[test]
fn validate_with_reports_missing_path_index() {
    let c = sample_config(vec!["/a", "/b"], 2, vec![7777]);
    match c.validate_with(Some(1)) {
        Err(ConfigError::Validation(ValidationError::InvalidGamePath(p))) => assert_eq!(p, PathBuf::from("/b")),
        other => panic!("unexpected {:?}", other),
    }
}

#[test]
fn merge_prefers_non_empty_values_of_other() {
    let mut a = sample_config(vec!["/a"], 2, vec![7777, 7778]);
    let mut b = Config::default_config();
    b.game_paths = vec![];
    b.input_mappings = vec![];
    b.network_ports = vec![9000];
    b.window_layout = "vertical".to_string();
    b.use_proton = true;
    a.merge_with(b);
    assert_eq!(a.game_paths, vec![PathBuf::from("/a")]);
    assert_eq!(a.input_mappings.len(), 2);
    assert_eq!(a.network_ports, vec![9000]);
    assert_eq!(a.window_layout, "vertical");
    assert!(a.use_proton);
}

#[test]
fn merge_takes_horizontal_layout_of_other() {
    let mut a = Config::default_config();
    a.window_layout = "vertical".to_string();
    let b = Config::default_config();
    a.merge_with(b);
    assert_eq!(a.window_layout, "horizontal");
    assert!(!a.use_proton);
}

#[test]
fn merge_keeps_layout_when_other_has_none() {
    let mut a = Config::default_config();
    a.window_layout = "grid2x2".to_string();
    let mut b = Config::default_config();
    b.window_layout = String::new();
    a.merge_with(b);
    assert_eq!(a.window_layout, "grid2x2");
}

#[test]
fn merge_with_self_changes_nothing() {
    let mut a = sample_config(vec!["/x"], 3, vec![8000]);
    a.window_layout = "vertical".to_string();
    let b = a.clone();
    a.merge_with(b);
    assert_eq!(a.game_paths, vec![PathBuf::from("/x")]);
    assert_eq!(a.input_mappings.len(), 3);
    assert_eq!(a.network_ports, vec![8000]);
    assert_eq!(a.window_layout, "vertical");
}

#[test]
fn primary_game_path_and_instance_count() {
    let c = sample_config(vec!["/one", "/two"], 3, vec![]);
    assert_eq!(c.primary_game_path(), Some(&PathBuf::from("/one")));
    assert_eq!(c.instance_count(), 3);
    let d = Config::default();
    assert_eq!(d.primary_game_path(), None);
    assert_eq!(d.instance_count(), 1);
}
