use hydra_coop::adaptive_config::{
    adaptation_index_of, pattern_index_of, record_pattern_success, setting_or, PatternRecord,
};
use hydra_coop::audio_manager::{choose_audio_system, AudioSystem};
use hydra_coop::env_vars::env_lookup;
use hydra_coop::input_mux::{capture_start, capture_step, identify_device, CaptureAction, CaptureEvent, InputMuxError};
use hydra_coop::net_emulator::{relay_step, Endpoint, RelayAction, RelayEvent, RelayTable};
use hydra_coop::network_bridge::{bridge_setup_commands, cleanup_commands, tap_setup_commands};
use hydra_coop::proton_integration::{proton_search_order, steam_roots};
use hydra_coop::window_manager::{record_search_pass, window_search_next, SearchDecision};

fn ep(port: u16) -> Endpoint {
    Endpoint { v6: false, ip: 0x7f00_0001, port, flowinfo: 0, scope_id: 0 }
}

#[test]
fn relay_table_routes_and_redirects() {
    let mut t = RelayTable::new();
    assert_eq!(t.destination(ep(7777)), None);
    t.add_mapping(ep(7777), ep(40000));
    t.add_mapping(ep(7778), ep(40001));
    assert_eq!(t.destination(ep(7777)), Some(ep(40000)));
    t.add_mapping(ep(7777), ep(40002));
    assert_eq!(t.len(), 2);
    assert_eq!(t.destination(ep(7777)), Some(ep(40002)));
    assert_eq!(t.destination(ep(7778)), Some(ep(40001)));
    let v6 = Endpoint { v6: true, ip: 1, port: 7777, flowinfo: 0, scope_id: 0 };
    assert_eq!(t.destination(v6), None);
    t.add_mapping(v6, ep(1));
    let scoped = Endpoint { scope_id: 2, ..v6 };
    assert_eq!(t.destination(scoped), None);
    assert_eq!(t.destination(v6), Some(ep(1)));
}

#[test]
fn relay_steps() {
    let mut t = RelayTable::new();
    t.add_mapping(ep(1), ep(2));
    assert_eq!(relay_step(&t, RelayEvent::Received(ep(1))), RelayAction::Forward(ep(2)));
    assert_eq!(relay_step(&t, RelayEvent::Received(ep(3))), RelayAction::DropPacket);
    assert_eq!(relay_step(&t, RelayEvent::StopRequested), RelayAction::Stop);
    assert_eq!(relay_step(&t, RelayEvent::PollFailed), RelayAction::Fail);
    assert_eq!(relay_step(&t, RelayEvent::PollReturned), RelayAction::ReadSockets);
    assert_eq!(relay_step(&t, RelayEvent::PollTimedOut), RelayAction::Continue);
    assert_eq!(relay_step(&t, RelayEvent::ReceiveDrained), RelayAction::Rearm);
    assert_eq!(relay_step(&t, RelayEvent::ReceiveFailed), RelayAction::Rearm);
}

#[test]
fn capture_steps() {
    assert_eq!(capture_step(CaptureEvent::PollReady), CaptureAction::Fetch);
    assert_eq!(capture_step(CaptureEvent::PollTimedOut), CaptureAction::Wait);
    assert_eq!(capture_step(CaptureEvent::PollInterrupted), CaptureAction::Wait);
    assert_eq!(capture_step(CaptureEvent::PollFailed), CaptureAction::Stop);
    assert_eq!(capture_step(CaptureEvent::Fetched(3)), CaptureAction::Emit);
    assert_eq!(capture_step(CaptureEvent::Fetched(0)), CaptureAction::Wait);
    assert_eq!(capture_step(CaptureEvent::FetchRetry), CaptureAction::Wait);
    assert_eq!(capture_step(CaptureEvent::FetchFailed), CaptureAction::Stop);
    assert_eq!(capture_step(CaptureEvent::Emitted), CaptureAction::Wait);
    assert_eq!(capture_step(CaptureEvent::EmitBrokenPipe), CaptureAction::Stop);
    assert_eq!(capture_step(CaptureEvent::EmitFailed), CaptureAction::Wait);
}

#[test]
fn capture_start_conditions() {
    assert!(matches!(capture_start(true, 2, 2, 2), Err(InputMuxError::AlreadyRunning)));
    assert!(matches!(capture_start(false, 0, 0, 0), Ok(false)));
    match capture_start(false, 2, 0, 1) {
        Err(InputMuxError::GenericError(m)) => assert_eq!(m, "No virtual devices available for routing"),
        other => panic!("unexpected {:?}", other),
    }
    assert!(matches!(capture_start(false, 2, 2, 0), Ok(false)));
    assert!(matches!(capture_start(false, 2, 2, 1), Ok(true)));
}

#[test]
fn unnamed_device_is_unknown() {
    let d = identify_device(None, Some("usb-1".to_string()), 3, 0x045e, 0x028e, 0x110);
    assert_eq!(d.name, "Unknown");
    assert_eq!(d.phys, Some("usb-1".to_string()));
    assert_eq!((d.bustype, d.vendor_id, d.product_id, d.version), (3, 0x045e, 0x028e, 0x110));
    assert_eq!(identify_device(Some("Pad".to_string()), None, 0, 0, 0, 0).name, "Pad");
}

#[test]
fn window_search_decisions_and_passes() {
    assert_eq!(window_search_next(0, 99999), SearchDecision::Arrange);
    assert_eq!(window_search_next(2, 100), SearchDecision::SearchAgain);
    assert_eq!(window_search_next(2, 30000), SearchDecision::GiveUp);
    let mut found = vec![(9, 90)];
    let missing = record_search_pass(&mut found, &vec![1, 2, 3], &vec![Some(10), None, Some(30)]);
    assert_eq!(missing, vec![2]);
    assert_eq!(found, vec![(9, 90), (1, 10), (3, 30)]);
    let missing = record_search_pass(&mut found, &vec![4, 5], &vec![Some(40)]);
    assert_eq!(missing, vec![5]);
}

#[test]
fn proton_installations_newest_first() {
    let entries = vec![
        ("Proton 8.0".to_string(), true),
        ("Steam Linux Runtime".to_string(), true),
        ("Proton 9.0".to_string(), true),
        ("Proton - Experimental".to_string(), true),
        ("Proton 10.0".to_string(), false),
        ("Proton 7.0".to_string(), true),
    ];
    assert_eq!(proton_search_order(&entries), vec!["Proton 9.0", "Proton 8.0", "Proton 7.0", "Proton - Experimental"]);
    assert!(proton_search_order(&vec![]).is_empty());
    assert_eq!(steam_roots()[2], ".local/share/Steam");
    assert_eq!(steam_roots().len(), 5);
}

#[test]
fn bridge_commands() {
    let setup = bridge_setup_commands("hydra0");
    assert_eq!(setup[0], vec!["link", "add", "name", "hydra0", "type", "bridge"]);
    assert_eq!(setup[2], vec!["addr", "add", "192.168.100.1/24", "dev", "hydra0"]);
    let tap = tap_setup_commands("hydra0", 1);
    assert_eq!(tap[0], vec!["tuntap", "add", "dev", "hydra_tap_1", "mode", "tap"]);
    assert_eq!(tap[1], vec!["link", "set", "dev", "hydra_tap_1", "master", "hydra0"]);
    assert_eq!(tap[3], vec!["addr", "add", "192.168.100.3/24", "dev", "hydra_tap_1"]);
    let clean = cleanup_commands("hydra0", &vec!["hydra_tap_0".to_string()]);
    assert_eq!(clean, vec![vec!["link", "delete", "hydra_tap_0"], vec!["link", "delete", "hydra0"]]);
}

#[test]
fn audio_system_preference() {
    assert_eq!(choose_audio_system(true, true), AudioSystem::PipeWire);
    assert_eq!(choose_audio_system(false, true), AudioSystem::PulseAudio);
    assert_eq!(choose_audio_system(false, false), AudioSystem::ALSA);
}

fn settings(layout: &str) -> Vec<(String, String)> {
    vec![
        ("working_dir".to_string(), "SeparateDirectories".to_string()),
        ("separation".to_string(), "Environment".to_string()),
        ("layout".to_string(), layout.to_string()),
    ]
}

#[test]
fn patterns_count_matching_launches() {
    let mut patterns: Vec<PatternRecord> = Vec::new();
    let unity = Some("Unity".to_string());
    assert_eq!(record_pattern_success(&mut patterns, unity.clone(), settings("horizontal")), 0);
    let mut reordered = settings("horizontal");
    reordered.reverse();
    assert_eq!(record_pattern_success(&mut patterns, unity.clone(), reordered), 0);
    assert_eq!(record_pattern_success(&mut patterns, unity.clone(), settings("vertical")), 1);
    assert_eq!(record_pattern_success(&mut patterns, None, settings("horizontal")), 2);
    assert_eq!(patterns[0].success_count, 2);
    assert_eq!(patterns[1].success_count, 1);
    assert_eq!(pattern_index_of(&patterns, &None, &settings("horizontal")), 2);
    assert_eq!(pattern_index_of(&patterns, &Some("Godot".to_string()), &settings("horizontal")), 3);
}

#[test]
fn settings_with_defaults() {
    let s = settings("grid2x2");
    assert_eq!(setting_or(&s, "layout", "horizontal"), "grid2x2");
    assert_eq!(setting_or(&s, "missing", "fallback"), "fallback");
    assert_eq!(env_lookup(&s, "separation"), Some("Environment".to_string()));
    assert_eq!(env_lookup(&s, "nope"), None);
    assert_eq!(adaptation_index_of(&vec![], "g"), 0);
}
