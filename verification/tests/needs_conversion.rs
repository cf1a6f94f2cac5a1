use transfer_music_favourites::models::{ConflictStrategy, ConversionPriority, Format, SyncConfig};
use transfer_music_favourites::sync::utils::{needs_conversion, needs_conversion_for_extension};

fn config_with(format: Option<Format>, whitelist: Option<Vec<String>>, blacklist: Option<Vec<String>>) -> SyncConfig {
    SyncConfig {
        navidrome_dir: String::from("/music"),
        local_dir: String::from("/local"),
        dest_dir: String::from("/dest"),
        format,
        on_conflict: ConflictStrategy::Ignore,
        priority: ConversionPriority::Balance,
        whitelist,
        blacklist,
    }
}

#[test]
fn test_needs_conversion_mp3() {
    let config = config_with(Some(Format::Mp3), None, None);

    // Needs conversion
    assert!(needs_conversion(&config, "song.flac"));
    assert!(needs_conversion(&config, "song.wav"));
    assert!(needs_conversion(&config, "song.opus"));
    assert!(needs_conversion(&config, "song.ogg"));

    // Doesn't need conversion
    assert!(!needs_conversion(&config, "song.mp3"));
    assert!(!needs_conversion(&config, "song.MP3"));
}

#[test]
fn test_needs_conversion_opus() {
    let config = config_with(Some(Format::Opus), None, None);

    // Needs conversion
    assert!(needs_conversion(&config, "song.flac"));
    assert!(needs_conversion(&config, "song.wav"));
    assert!(needs_conversion(&config, "song.mp3"));
    assert!(needs_conversion(&config, "song.ogg"));

    // Doesn't need conversion
    assert!(!needs_conversion(&config, "song.opus"));
    assert!(!needs_conversion(&config, "song.OPUS"));
}

#[test]
fn test_needs_conversion_none() {
    let config = config_with(None, None, None);

    // Never needs conversion if no format is specified
    assert!(!needs_conversion(&config, "song.flac"));
    assert!(!needs_conversion(&config, "song.wav"));
    assert!(!needs_conversion(&config, "song.mp3"));
    assert!(!needs_conversion(&config, "song.opus"));
    assert!(!needs_conversion(&config, "song.ogg"));
}

#[test]
fn test_needs_conversion_ogg() {
    let config = config_with(Some(Format::Ogg), None, None);

    // Needs conversion
    assert!(needs_conversion(&config, "song.flac"));
    assert!(needs_conversion(&config, "song.wav"));
    assert!(needs_conversion(&config, "song.mp3"));
    assert!(needs_conversion(&config, "song.opus"));

    // Doesn't need conversion
    assert!(!needs_conversion(&config, "song.ogg"));
    assert!(!needs_conversion(&config, "song.OGG"));
}

#[test]
fn no_extension_is_converted() {
    let config = config_with(Some(Format::Mp3), None, None);
    assert!(needs_conversion(&config, "/local/album/song"));
    assert!(needs_conversion_for_extension(&config, None));
}

#[test]
fn whitelist_limits_conversion() {
    let config = config_with(Some(Format::Mp3), Some(vec![String::from("FLAC")]), None);
    assert!(needs_conversion(&config, "song.flac"));
    assert!(!needs_conversion(&config, "song.wav"));
    assert!(!needs_conversion(&config, "song.mp3"));
}

#[test]
fn blacklist_excludes_conversion() {
    let config = config_with(Some(Format::Opus), None, Some(vec![String::from("wav"), String::from("ogg")]));
    assert!(!needs_conversion(&config, "song.WAV"));
    assert!(!needs_conversion(&config, "song.ogg"));
    assert!(needs_conversion(&config, "song.flac"));
    assert!(!needs_conversion(&config, "song.opus"));
}

#[test]
fn conversion_decision_ignores_case() {
    let config = config_with(Some(Format::Mp3), Some(vec![String::from("flac")]), None);
    assert_eq!(
        needs_conversion_for_extension(&config, Some("FlAc")),
        needs_conversion_for_extension(&config, Some("flac"))
    );
    assert_eq!(
        needs_conversion_for_extension(&config, Some("Mp3")),
        needs_conversion_for_extension(&config, Some("mp3"))
    );
}

#[test]
fn format_extensions() {
    assert_eq!(Format::Mp3.as_ref(), "mp3");
    assert_eq!(Format::Opus.as_ref(), "opus");
    assert_eq!(Format::Ogg.as_ref(), "ogg");
}
