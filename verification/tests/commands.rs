use clipshot::commands::system::{describe_system, get_system_info, MEMORY_TOTAL};
use clipshot::commands::{
    backend_api_result, backend_api_url, generate_metadata, get_capture_sources, get_clip, greet,
    list_ai_models, list_clips, ApiOutcome, SystemInfo,
};

#[test]
fn greet_welcomes_by_name() {
    assert_eq!(greet("Ada"), "Hello, Ada! Welcome to ClipShot!");
    assert_eq!(greet(""), "Hello, ! Welcome to ClipShot!");
}

#[test]
fn short_system_info_carries_the_host_version() {
    let info = SystemInfo::new("linux", "x86_64");
    assert_eq!(info.os, "linux");
    assert_eq!(info.arch, "x86_64");
    assert_eq!(info.version, "0.1.0");
}

#[test]
fn backend_api_url_appends_the_endpoint() {
    assert_eq!(backend_api_url("health"), "http://localhost:8000/api/v1/health");
    assert_eq!(backend_api_url(""), "http://localhost:8000/api/v1/");
}

#[test]
fn backend_api_result_says_which_step_failed() {
    assert_eq!(
        backend_api_result(ApiOutcome::Text("pong".to_string())),
        Ok("pong".to_string())
    );
    assert_eq!(
        backend_api_result(ApiOutcome::ReadFailed("bad utf-8".to_string())),
        Err("Failed to read response: bad utf-8".to_string())
    );
    assert_eq!(
        backend_api_result(ApiOutcome::CallFailed("connection refused".to_string())),
        Err("Failed to call API: connection refused".to_string())
    );
}

#[test]
fn ai_models_are_the_two_known_models() {
    let models = list_ai_models();
    assert_eq!(models.len(), 2);
    assert_eq!(models[0].id, "model_1");
    assert_eq!(models[0].name, "Highlight Detector");
    assert_eq!(models[0].model_type, "ONNX");
    assert_eq!(models[0].size, 1024 * 1024 * 50);
    assert!(models[0].loaded);
    assert_eq!(models[1].id, "model_2");
    assert_eq!(models[1].name, "Caption Generator");
    assert_eq!(models[1].model_type, "TFLite");
    assert_eq!(models[1].size, 1024 * 1024 * 30);
    assert!(!models[1].loaded);
}

#[test]
fn metadata_is_the_same_for_every_clip() {
    for clip_id in ["clip_1", "", "anything"] {
        let metadata = generate_metadata(clip_id);
        assert_eq!(metadata.title, "Epic Gaming Moment");
        assert_eq!(
            metadata.description,
            "An amazing play captured during a competitive match"
        );
        assert_eq!(metadata.tags, vec!["gaming", "highlight", "epic"]);
        assert_eq!(metadata.highlights, vec!["00:05", "00:15"]);
    }
}

#[test]
fn capture_sources_are_display_and_window() {
    let sources = get_capture_sources();
    assert_eq!(sources.len(), 2);
    assert_eq!(sources[0].id, "screen_1");
    assert_eq!(sources[0].name, "Primary Display");
    assert_eq!(sources[0].source_type, "screen");
    assert_eq!(sources[1].id, "window_1");
    assert_eq!(sources[1].name, "Game Window");
    assert_eq!(sources[1].source_type, "window");
}

#[test]
fn get_clip_answers_under_the_id_asked_for() {
    let clip = get_clip("clip_42".to_string());
    assert_eq!(clip.id, "clip_42");
    assert_eq!(clip.title, "Epic Victory");
    assert_eq!(clip.game.as_deref(), Some("Valorant"));
    assert_eq!(clip.duration, 30);
    assert_eq!(clip.file_path, "/clips/clip_1.mp4");
    assert_eq!(clip.thumbnail.as_deref(), Some("/clips/clip_1_thumb.jpg"));
    assert_eq!(clip.created_at, "2024-01-01T00:00:00Z");
}

#[test]
fn list_clips_holds_the_sample_clip() {
    let clips = list_clips();
    assert_eq!(clips.len(), 1);
    assert_eq!(clips[0].id, "clip_1");
    assert_eq!(clips[0].title, "Epic Victory");
    assert_eq!(clips[0].game.as_deref(), Some("Valorant"));
    assert_eq!(clips[0].duration, 30);
    assert_eq!(clips[0].file_path, "/clips/clip_1.mp4");
    assert_eq!(clips[0].thumbnail.as_deref(), Some("/clips/clip_1_thumb.jpg"));
    assert_eq!(clips[0].created_at, "2024-01-01T00:00:00Z");
}

#[test]
fn describe_system_fills_in_the_fixed_values() {
    let info = describe_system("linux", "aarch64", 8);
    assert_eq!(info.platform, "linux");
    assert_eq!(info.arch, "aarch64");
    assert_eq!(info.version, "0.1.0");
    assert_eq!(info.memory_total, 16 * 1024 * 1024 * 1024);
    assert_eq!(info.memory_total, MEMORY_TOTAL);
    assert_eq!(info.cpu_cores, 8);
    assert_eq!(describe_system("linux", "aarch64", 0).cpu_cores, 0);
}

#[test]
fn describe_system_keeps_the_low_bits_of_a_huge_count() {
    if usize::BITS > 32 {
        let huge: usize = (1usize << 32) + 5;
        assert_eq!(describe_system("linux", "x86_64", huge).cpu_cores, 5);
    }
    assert_eq!(
        describe_system("linux", "x86_64", u32::MAX as usize).cpu_cores,
        u32::MAX
    );
}

#[test]
fn get_system_info_asks_the_machine_for_its_processors() {
    let info = get_system_info("linux", "x86_64");
    assert_eq!(info.platform, "linux");
    assert_eq!(info.arch, "x86_64");
    assert_eq!(info.version, "0.1.0");
    assert_eq!(info.memory_total, MEMORY_TOTAL);
    assert_eq!(info.cpu_cores, num_cpus::get() as u32);
    assert!(info.cpu_cores >= 1);
}
