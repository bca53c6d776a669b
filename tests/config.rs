use acap::error::CaptureError;
use acap::config::{Config, ConfigUpdatableKey, FunctionKey, Theme};
use acap::hotkey::{callback, InputEvent, Key};
use std::path::PathBuf;

fn fresh() -> Config {
    Config::with_defaults(PathBuf::from("/cfg/acap"), PathBuf::from("/cfg/acap/config.toml"))
}

#[test]
fn defaults_are_thirty_seconds_system_theme_f12() {
    let c = fresh();
    assert_eq!(c.save_path, PathBuf::from("/cfg/acap"));
    assert_eq!(c.config_file_path, PathBuf::from("/cfg/acap/config.toml"));
    assert_eq!(c.recording_duration_in_secs, 30);
    assert_eq!(c.recording_duration(), 30);
    assert_eq!(c.theme, Theme::System);
    assert_eq!(c.start_recording_key, FunctionKey::F12);
}

#[test]
fn each_update_changes_one_field() {
    let mut c = fresh();
    c.apply_update(ConfigUpdatableKey::RecordingDurationInSecs(90));
    assert_eq!(c.recording_duration_in_secs, 90);
    c.apply_update(ConfigUpdatableKey::Theme(Theme::Dark));
    assert_eq!(c.theme, Theme::Dark);
    c.apply_update(ConfigUpdatableKey::StartRecordingKey(FunctionKey::F3));
    assert_eq!(c.start_recording_key, FunctionKey::F3);
    c.apply_update(ConfigUpdatableKey::SavePath(PathBuf::from("/music")));
    assert_eq!(c.save_path, PathBuf::from("/music"));
    assert_eq!(c.recording_duration_in_secs, 90);
    assert_eq!(c.config_file_path, PathBuf::from("/cfg/acap/config.toml"));
}

#[test]
fn function_key_presses_become_events() {
    let keys = [
        (FunctionKey::F1, "F1"),
        (FunctionKey::F2, "F2"),
        (FunctionKey::F3, "F3"),
        (FunctionKey::F4, "F4"),
        (FunctionKey::F5, "F5"),
        (FunctionKey::F6, "F6"),
        (FunctionKey::F7, "F7"),
        (FunctionKey::F8, "F8"),
        (FunctionKey::F9, "F9"),
        (FunctionKey::F10, "F10"),
        (FunctionKey::F11, "F11"),
        (FunctionKey::F12, "F12"),
    ];
    for (k, label) in keys {
        let e = callback(InputEvent::KeyPress(Key::Function(k))).unwrap();
        assert_eq!(e.category, "KeyPress");
        assert_eq!(e.label, label);
    }
}

#[test]
fn other_events_are_ignored() {
    assert!(callback(InputEvent::KeyPress(Key::Other)).is_none());
    assert!(callback(InputEvent::KeyRelease(Key::Function(FunctionKey::F1))).is_none());
    assert!(callback(InputEvent::Other).is_none());
}

#[test]
fn error_messages_name_the_failure() {
    assert_eq!(CaptureError::UnsupportedSampleFormat.message(), "Unsupported sample format");
    assert_eq!(CaptureError::FinalizeFailure.message(), "Failed to finalize writer");
}
