use clipshot::contract::{ClipEvent, OperationRequest, Plugin};
use clipshot::demo::DemoPlugin;
use clipshot::error::BridgeError;

fn event(n: u32) -> ClipEvent {
    ClipEvent::new(format!("clip_{}", n), "Epic Victory".to_string(), 1920, 1080)
}

#[test]
fn new_demo_plugin_reports_defaults() {
    let plugin = DemoPlugin::new();
    assert_eq!(plugin.id(), "com.clipshot.rust-demo");
    assert_eq!(plugin.name(), "Rust Demo Plugin");
    assert_eq!(plugin.version(), "1.0.0");
    let status = plugin.get_status();
    assert!(status.healthy);
    assert_eq!(status.version, "1.0.0");
    assert_eq!(status.clip_count, 0);
    assert!(status.use_simd);
    assert_eq!(status.language, "rust");
    assert_eq!(DemoPlugin::default().get_status().clip_count, 0);
}

#[test]
fn clip_event_holds_what_it_was_made_of() {
    let clip = ClipEvent::new("c1".to_string(), "Title".to_string(), 640, 480);
    assert_eq!(clip.id, "c1");
    assert_eq!(clip.title, "Title");
    assert_eq!(clip.width, 640);
    assert_eq!(clip.height, 480);
}

#[test]
fn init_reads_the_simd_switch() {
    let mut plugin = DemoPlugin::new();
    assert!(plugin.init("{\"useSIMD\": false}").is_ok());
    assert!(!plugin.get_status().use_simd);
    assert!(plugin.init("{\"useSIMD\": true, \"other\": [1, 2, 3]}").is_ok());
    assert!(plugin.get_status().use_simd);
}

#[test]
fn init_tolerates_unknown_and_missing_fields() {
    let mut plugin = DemoPlugin::new();
    assert!(plugin.init("{\"useSIMD\": false}").is_ok());
    assert!(plugin.init("{}").is_ok());
    assert!(!plugin.get_status().use_simd);
    assert!(plugin.init("{\"threads\": 4, \"name\": \"x\"}").is_ok());
    assert!(!plugin.get_status().use_simd);
    assert!(plugin.init("{\"useSIMD\": \"yes\"}").is_ok());
    assert!(!plugin.get_status().use_simd);
    assert!(plugin.init("{\"useSIMD\": 1}").is_ok());
    assert!(!plugin.get_status().use_simd);
    assert!(plugin.init("{\"usesimd\": true}").is_ok());
    assert!(!plugin.get_status().use_simd);
    assert!(plugin.init("[true]").is_ok());
    assert!(!plugin.get_status().use_simd);
    assert!(plugin.init("true").is_ok());
    assert!(!plugin.get_status().use_simd);
}

#[test]
fn init_rejects_what_is_not_json_and_keeps_the_defaults() {
    let mut plugin = DemoPlugin::new();
    for config in ["", "useSIMD=false", "{\"useSIMD\": false", "{'useSIMD': false}"] {
        let error = plugin.init(config).unwrap_err();
        assert!(!error.reason.is_empty());
        assert_eq!(
            error.message(),
            format!("Invalid plugin configuration: {}", error.reason)
        );
        assert!(plugin.get_status().use_simd);
    }
    plugin.on_event(&event(1)).unwrap();
    assert_eq!(plugin.get_status().clip_count, 1);
}

#[test]
fn configure_switches_only_when_told() {
    let mut plugin = DemoPlugin::new();
    plugin.configure("{}", None);
    assert!(plugin.get_stats().simd_enabled);
    plugin.configure("{}", Some(false));
    assert!(!plugin.get_stats().simd_enabled);
    plugin.configure("{}", None);
    assert!(!plugin.get_stats().simd_enabled);
    plugin.configure("{}", Some(true));
    assert!(plugin.get_stats().simd_enabled);
}

#[test]
fn shutdown_without_init_succeeds_and_changes_nothing() {
    let mut plugin = DemoPlugin::new();
    assert!(plugin.shutdown().is_ok());
    assert!(plugin.shutdown().is_ok());
    let status = plugin.get_status();
    assert!(status.healthy);
    assert_eq!(status.clip_count, 0);
    assert!(status.use_simd);
}

#[test]
fn on_event_counts_each_event_once() {
    let mut plugin = DemoPlugin::new();
    let mut n: u32 = 0;
    while n < 5 {
        assert!(plugin.on_event(&event(n)).is_ok());
        n += 1;
        assert_eq!(plugin.get_status().clip_count, n as u64);
    }
    assert_eq!(plugin.get_stats().clips_processed, 5);
    plugin.shutdown().unwrap();
    assert_eq!(plugin.get_status().clip_count, 5);
}

#[test]
fn get_status_does_not_change_the_plugin() {
    let mut plugin = DemoPlugin::new();
    plugin.on_event(&event(0)).unwrap();
    let first = plugin.get_status();
    let second = plugin.get_status();
    assert_eq!(first.clip_count, 1);
    assert_eq!(second.clip_count, 1);
    assert_eq!(first.use_simd, second.use_simd);
    assert_eq!(first.version, second.version);
}

#[test]
fn reset_counters_returns_the_old_count() {
    let mut plugin = DemoPlugin::new();
    assert_eq!(plugin.reset_counters(), 0);
    plugin.on_event(&event(0)).unwrap();
    plugin.on_event(&event(1)).unwrap();
    plugin.on_event(&event(2)).unwrap();
    assert_eq!(plugin.reset_counters(), 3);
    assert_eq!(plugin.get_stats().clips_processed, 0);
    assert_eq!(plugin.reset_counters(), 0);
}

#[test]
fn process_image_brightens_and_saturates() {
    let plugin = DemoPlugin::new();
    let data: Vec<u8> = vec![0, 1, 100, 244, 245, 246, 250, 255];
    assert_eq!(
        plugin.process_image(4, 2, &data),
        vec![10, 11, 110, 254, 255, 255, 255, 255]
    );
    assert_eq!(plugin.process_image(0, 0, &Vec::new()), Vec::<u8>::new());
}

#[test]
fn process_image_is_stable_and_keeps_the_length() {
    let mut plugin = DemoPlugin::new();
    let data: Vec<u8> = (0..=255u8).collect();
    let first = plugin.process_image(16, 16, &data);
    let second = plugin.process_image(16, 16, &data);
    assert_eq!(first, second);
    assert_eq!(first.len(), data.len());
    for (before, after) in data.iter().zip(first.iter()) {
        assert_eq!(*after, before.saturating_add(10));
    }
    plugin.init("{\"useSIMD\": false}").unwrap();
    assert_eq!(plugin.process_image(16, 16, &data), first);
    assert_eq!(plugin.process_image(1, 256, &data), first);
}

#[test]
fn process_answers_the_image_operation() {
    let plugin = DemoPlugin::new();
    let request = OperationRequest {
        operation: "process_image".to_string(),
        payload: vec![5, 250],
    };
    assert_eq!(plugin.process(&request).unwrap().payload, vec![15, 255]);
    assert_eq!(plugin.process(&request).unwrap().payload, vec![15, 255]);
}

#[test]
fn process_refuses_unknown_operations() {
    let plugin = DemoPlugin::new();
    let request = OperationRequest {
        operation: "sharpen".to_string(),
        payload: vec![1, 2, 3],
    };
    match plugin.process(&request) {
        Err(BridgeError::NotFound(message)) => assert_eq!(message, "Unknown operation: sharpen"),
        other => panic!("unexpected result: {:?}", other),
    }
}
