use dictation_capture::error::{BuildFailure, RecorderError};
use dictation_capture::naming::{new_recording_file_name, recording_file_name};
use dictation_capture::settings::AppSettings;
use dictation_capture::shell::{greet, panel_offset, tray_action, TrayAction};

#[test]
fn file_name_wraps_the_identifier() {
    assert_eq!(
        recording_file_name("67e55044-10b1-426f-9247-bb680e5fe0c8"),
        "dictation-67e55044-10b1-426f-9247-bb680e5fe0c8.wav"
    );
    assert_eq!(recording_file_name(""), "dictation-.wav");
}

#[test]
fn new_file_name_holds_a_hyphenated_identifier() {
    let name = new_recording_file_name();
    assert_eq!(name.len(), "dictation-".len() + 36 + ".wav".len());
    assert!(name.starts_with("dictation-"));
    assert!(name.ends_with(".wav"));
    let id: Vec<char> = name["dictation-".len()..name.len() - ".wav".len()].chars().collect();
    for (i, c) in id.iter().enumerate() {
        if i == 8 || i == 13 || i == 18 || i == 23 {
            assert_eq!(*c, '-');
        } else {
            assert!(c.is_ascii_digit() || ('a'..='f').contains(c), "{} at {}", c, i);
        }
    }
}

#[test]
fn new_file_names_differ() {
    let mut names: Vec<String> = Vec::new();
    for _ in 0..100 {
        let name = new_recording_file_name();
        assert!(!names.contains(&name));
        names.push(name);
    }
}

#[test]
fn error_texts() {
    assert_eq!(RecorderError::AlreadyRecording.message(), "Already recording");
    assert_eq!(RecorderError::NoInputDevice.message(), "No default input device (mic)");
    assert_eq!(
        RecorderError::DeviceConfigError("busy".to_string()).message(),
        "default input config: busy"
    );
    assert_eq!(
        RecorderError::StreamBuildError(BuildFailure::UnsupportedFormat).message(),
        "Unsupported sample format"
    );
    assert_eq!(
        RecorderError::StreamBuildError(BuildFailure::Device("gone".to_string())).message(),
        "build stream: gone"
    );
    assert_eq!(RecorderError::StreamPlayError("denied".to_string()).message(), "stream play: denied");
    assert_eq!(RecorderError::NotRecording.message(), "Not recording");
    assert_eq!(RecorderError::WriterPanicked.message(), "writer thread panicked");
    assert_eq!(
        RecorderError::WriterIOError("disk full".to_string()).message(),
        "writer failed: disk full"
    );
    assert_eq!(
        RecorderError::FileMissing("/cache/a.wav".to_string()).message(),
        "Recorded file does not exist: /cache/a.wav"
    );
    assert_eq!(RecorderError::EmptyRecording.message(), "Recorded file is empty");
}

#[test]
fn default_settings() {
    let settings = AppSettings::default();
    assert_eq!(
        settings,
        AppSettings {
            provider: "openai".to_string(),
            openai_api_key: String::new(),
            google_api_key: String::new(),
            google_language: "en-US".to_string(),
            input_device_name: String::new(),
            panel_visible: true,
        }
    );
}

#[test]
fn greeting_text() {
    assert_eq!(greet("Ada"), "Hello, Ada! You've been greeted from Rust!");
    assert_eq!(greet(""), "Hello, ! You've been greeted from Rust!");
}

#[test]
fn tray_entries() {
    assert_eq!(tray_action("toggle"), TrayAction::Toggle);
    assert_eq!(tray_action("show"), TrayAction::ShowPanel);
    assert_eq!(tray_action("settings"), TrayAction::ShowSettings);
    assert_eq!(tray_action("quit"), TrayAction::Quit);
    assert_eq!(tray_action("Quit"), TrayAction::Ignore);
    assert_eq!(tray_action(""), TrayAction::Ignore);
    assert_eq!(tray_action("toggle "), TrayAction::Ignore);
}

#[test]
fn panel_is_placed_a_margin_from_the_far_edge() {
    assert_eq!(panel_offset(1920, 400, 64), 1456);
    assert_eq!(panel_offset(1080, 200, 128), 752);
}

#[test]
fn panel_that_does_not_fit_is_placed_at_the_near_edge() {
    assert_eq!(panel_offset(300, 400, 64), 0);
    assert_eq!(panel_offset(400, 400, 1), 0);
    assert_eq!(panel_offset(400, 400, 0), 0);
    assert_eq!(panel_offset(0, u32::MAX, i32::MAX), 0);
}

#[test]
fn panel_offset_stays_within_range() {
    assert_eq!(panel_offset(u32::MAX, 0, i32::MIN), i32::MAX);
    assert_eq!(panel_offset(500, 100, -50), 450);
}
