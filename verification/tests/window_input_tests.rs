use hydra_coop::input_mux::{
    is_event_device_name, merge_codes, resolve_assignments, virtual_device_name, DeviceIdentifier, InputAssignment,
};
use hydra_coop::window_manager::{
    monitors_from_workarea, next_retry_delay_ms, ordered_windows, pid_property_matches, plan_layout, Layout, Monitor,
    WindowManagerError,
};

fn device(name: &str, vendor: u16, product: u16) -> DeviceIdentifier {
    DeviceIdentifier {
        name: name.to_string(),
        phys: Some(format!("usb-{}", name)),
        bustype: 3,
        vendor_id: vendor,
        product_id: product,
        version: 1,
    }
}

fn workarea(rects: &[(i32, i32, i32, i32)]) -> Vec<u8> {
    let mut v = Vec::new();
    for (x, y, w, h) in rects {
        for n in [*x, *y, *w, *h] {
            v.extend_from_slice(&(n as u32).to_ne_bytes());
        }
    }
    v
}

#[test]
fn workarea_is_read_in_machine_order() {
    let bytes = workarea(&[(0, 0, 1920, 1080), (1920, -10, 1280, 1024)]);
    let ms = monitors_from_workarea(&bytes, 1, 2).unwrap();
    assert_eq!(ms.len(), 2);
    assert_eq!((ms[0].x, ms[0].y, ms[0].width, ms[0].height), (0, 0, 1920, 1080));
    assert_eq!((ms[1].x, ms[1].y, ms[1].width, ms[1].height), (1920, -10, 1280, 1024));
}

#[test]
fn workarea_errors() {
    assert!(matches!(monitors_from_workarea(&[], 1, 2), Err(WindowManagerError::MonitorDetectionError(_))));
    assert!(matches!(
        monitors_from_workarea(&[0u8; 17], 7, 9),
        Err(WindowManagerError::InvalidPropertyData(7, 9))
    ));
}

fn screen() -> Vec<Monitor> {
    vec![Monitor { x: 0, y: 0, width: 1920, height: 1080 }]
}

#[test]
fn horizontal_layout_splits_width() {
    let g = plan_layout(&screen(), 2, Layout::Horizontal).unwrap();
    assert_eq!(g.len(), 2);
    assert_eq!((g[0].x, g[0].y, g[0].width, g[0].height), (0, 0, 960, 1080));
    assert_eq!((g[1].x, g[1].y, g[1].width, g[1].height), (960, 0, 960, 1080));
}

#[test]
fn vertical_layout_splits_height() {
    let g = plan_layout(&screen(), 3, Layout::Vertical).unwrap();
    assert_eq!((g[2].x, g[2].y, g[2].width, g[2].height), (0, 720, 1920, 360));
}

#[test]
fn grid_layouts_use_cells() {
    let g = plan_layout(&screen(), 4, Layout::Grid2x2).unwrap();
    assert_eq!((g[3].x, g[3].y, g[3].width, g[3].height), (960, 540, 960, 540));
    let g = plan_layout(&screen(), 3, Layout::Grid3x1).unwrap();
    assert_eq!((g[2].x, g[2].y, g[2].width, g[2].height), (1280, 0, 640, 1080));
}

#[test]
fn windows_are_dealt_over_monitors() {
    let ms = vec![
        Monitor { x: 0, y: 0, width: 1000, height: 800 },
        Monitor { x: 1000, y: 0, width: 600, height: 400 },
    ];
    let g = plan_layout(&ms, 3, Layout::Horizontal).unwrap();
    assert_eq!((g[0].x, g[0].width), (0, 500));
    assert_eq!((g[1].x, g[1].width, g[1].height), (1000, 600, 400));
    assert_eq!((g[2].x, g[2].width), (500, 500));
}

#[test]
fn single_window_takes_whole_monitor() {
    let g = plan_layout(&screen(), 1, Layout::Horizontal).unwrap();
    assert_eq!((g[0].width, g[0].height), (1920, 1080));
    assert!(plan_layout(&screen(), 0, Layout::Vertical).unwrap().is_empty());
}

#[test]
fn layout_names_ignore_case() {
    assert_eq!(Layout::from("VERTICAL"), Layout::Vertical);
    assert_eq!(Layout::from("Grid2x2"), Layout::Grid2x2);
    assert_eq!(Layout::from("grid3x1"), Layout::Grid3x1);
    assert_eq!(Layout::from("horizontal"), Layout::Horizontal);
    assert_eq!(Layout::from("diagonal"), Layout::Horizontal);
}

#[test]
fn pid_property_comparison() {
    let v = 4242u32.to_ne_bytes();
    assert!(pid_property_matches(&v, 4242));
    assert!(!pid_property_matches(&v, 4243));
    assert!(!pid_property_matches(&v[..3], 4242));
}

#[test]
fn retry_delay_doubles_up_to_limit() {
    assert_eq!(next_retry_delay_ms(50), 100);
    assert_eq!(next_retry_delay_ms(250), 500);
    assert_eq!(next_retry_delay_ms(400), 500);
    assert_eq!(next_retry_delay_ms(0), 0);
}

#[test]
fn windows_follow_pid_order() {
    let found = vec![(30, 300), (10, 100), (10, 111)];
    assert_eq!(ordered_windows(&[10, 20, 30], &found), vec![(10, 100), (30, 300)]);
}

#[test]
fn assignments_take_devices_once() {
    let a = device("Pad A", 0x045e, 1);
    let b = device("Pad B", 0x054c, 2);
    let available = vec![a.clone(), b.clone()];
    let wanted = vec![
        (0, InputAssignment::Device(b.clone())),
        (1, InputAssignment::AutoDetect),
        (2, InputAssignment::AutoDetect),
        (3, InputAssignment::NoDevice),
    ];
    let pairs = resolve_assignments(&available, &wanted);
    assert_eq!(pairs.len(), 2);
    assert!(pairs[0].0 == b && pairs[0].1 == 0);
    assert!(pairs[1].0 == a && pairs[1].1 == 1);
}

#[test]
fn explicit_device_taken_twice_is_kept_once() {
    let a = device("Pad A", 1, 1);
    let pairs = resolve_assignments(
        &vec![a.clone()],
        &[(0, InputAssignment::Device(a.clone())), (1, InputAssignment::Device(a.clone()))],
    );
    assert_eq!(pairs.len(), 1);
    assert_eq!(pairs[0].1, 0);
}

#[test]
fn event_device_names_and_virtual_names() {
    assert!(is_event_device_name("event12"));
    assert!(!is_event_device_name("mouse0"));
    assert_eq!(virtual_device_name(3), "HydraCoop Virtual Device 3");
}

#[test]
fn merged_codes_keep_order_without_repeats() {
    let mut acc = vec![1u16, 5];
    merge_codes(&mut acc, &[5, 7, 1, 9, 7]);
    assert_eq!(acc, vec![1, 5, 7, 9]);
}

#[test]
fn symmetric_pid_property_matches_in_any_byte_order() {
    assert!(pid_property_matches(&[1, 0, 0, 1], 0x0100_0001));
    assert!(!pid_property_matches(&[1, 0, 0, 1], 0x0100_0002));
}
