use acap::listing::{has_wav_ext, select_recordings, RecordingEntry};
use std::collections::HashSet;
use std::path::PathBuf;

fn entry(name: &str, is_file: bool) -> RecordingEntry {
    RecordingEntry {
        name: name.to_string(),
        path: PathBuf::from("/rec").join(name),
        is_file,
    }
}

#[test]
fn listing_keeps_wav_files_except_main() {
    let entries = vec![
        entry("notes.txt", true),
        entry("1700000000.wav", true),
        entry("main_recording.wav", true),
        entry("folder.wav", false),
        entry("b.wav", true),
        entry("song.WAV", true),
        entry(".wav", true),
        entry("wav", true),
    ];
    let files = select_recordings(entries);
    let names: Vec<&str> = files.iter().map(|f| f.name.as_str()).collect();
    assert_eq!(names, vec!["1700000000.wav", "b.wav"]);
    assert_eq!(files[1].path, PathBuf::from("/rec/b.wav"));
}

#[test]
fn listing_matches_as_a_set_in_any_order() {
    let forward = vec![entry("a.wav", true), entry("x.mp3", true), entry("c.wav", true)];
    let backward = vec![entry("c.wav", true), entry("x.mp3", true), entry("a.wav", true)];
    let a: HashSet<String> = select_recordings(forward).into_iter().map(|f| f.name).collect();
    let b: HashSet<String> = select_recordings(backward).into_iter().map(|f| f.name).collect();
    assert_eq!(a, b);
    assert_eq!(a.len(), 2);
}

#[test]
fn listing_of_empty_directory_is_empty() {
    assert!(select_recordings(Vec::new()).is_empty());
}

#[test]
fn wav_extension_needs_a_stem() {
    assert!(has_wav_ext("a.wav"));
    assert!(has_wav_ext("..wav"));
    assert!(!has_wav_ext(".wav"));
    assert!(!has_wav_ext("a.wave"));
    assert!(!has_wav_ext(""));
}
