use vstd::prelude::*;

verus! {

/// The duration of a recording in a fresh configuration, in seconds.
pub const DEFAULT_RECORDING_DURATION_IN_SECS: u32 = 30;

/// The colour theme of the user interface.
#[derive(Clone, Copy, Debug, PartialEq, Eq, Structural)]
pub enum Theme {
    System,
    Light,
    Dark,
}

/// One of the twelve function keys that can start a recording.
#[derive(Clone, Copy, Debug, PartialEq, Eq, Structural)]
pub enum FunctionKey {
    F1,
    F2,
    F3,
    F4,
    F5,
    F6,
    F7,
    F8,
    F9,
    F10,
    F11,
    F12,
}

/// One change to the configuration.
pub enum ConfigUpdatableKey {
    SavePath(std::path::PathBuf),
    RecordingDurationInSecs(u32),
    Theme(Theme),
    StartRecordingKey(FunctionKey),
}

/// The user's configuration, as plain data.
pub struct Config {
    pub config_file_path: std::path::PathBuf,
    pub save_path: std::path::PathBuf,
    pub recording_duration_in_secs: u32,
    pub theme: Theme,
    pub start_recording_key: FunctionKey,
}

/// The configuration after one change: the field that the key names takes
/// the key's value, every other field stays.
pub open spec fn updated(c: Config, key: ConfigUpdatableKey) -> Config {
    match key {
        ConfigUpdatableKey::SavePath(p) => Config { save_path: p, ..c },
        ConfigUpdatableKey::RecordingDurationInSecs(d) => Config {
            recording_duration_in_secs: d,
            ..c
        },
        ConfigUpdatableKey::Theme(t) => Config { theme: t, ..c },
        ConfigUpdatableKey::StartRecordingKey(k) => Config { start_recording_key: k, ..c },
    }
}

impl Config {
    /// A fresh configuration: recordings are saved in the project directory,
    /// last thirty seconds, follow the system theme and start on F12.
    pub fn with_defaults(project_dir: std::path::PathBuf, config_file_path: std::path::PathBuf) -> (r: Config)
        ensures
            r.config_file_path == config_file_path,
            r.save_path == project_dir,
            r.recording_duration_in_secs == DEFAULT_RECORDING_DURATION_IN_SECS,
            r.theme == Theme::System,
            r.start_recording_key == FunctionKey::F12,
    {
        Config {
            save_path: project_dir,
            recording_duration_in_secs: DEFAULT_RECORDING_DURATION_IN_SECS,
            config_file_path,
            theme: Theme::System,
            start_recording_key: FunctionKey::F12,
        }
    }

    /// Applies one change.
    pub fn apply_update(&mut self, key: ConfigUpdatableKey)
        ensures
            *final(self) == updated(*old(self), key),
    {
        match key {
            ConfigUpdatableKey::SavePath(val) => self.save_path = val,
            ConfigUpdatableKey::RecordingDurationInSecs(val) => self.recording_duration_in_secs = val,
            ConfigUpdatableKey::Theme(val) => self.theme = val,
            ConfigUpdatableKey::StartRecordingKey(val) => self.start_recording_key = val,
        }
    }

    /// The recording duration in seconds, as a session takes it.
    pub fn recording_duration(&self) -> (r: u64)
        ensures
            r == self.recording_duration_in_secs as u64,
    {
        self.recording_duration_in_secs as u64
    }
}

} // verus!
