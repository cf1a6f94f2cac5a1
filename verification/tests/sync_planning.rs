use transfer_music_favourites::models::{ConflictStrategy, ConversionPriority, Format, Song, SongToConvert, SyncConfig};
use transfer_music_favourites::sync::conversion;
use transfer_music_favourites::sync::conversion::codec_settings;
use transfer_music_favourites::sync::sync_lyrics::{lyric_song_paths, transfer_lyric_file};
use transfer_music_favourites::sync::sync_music::{
    convert_song, handle_conflicts, plan_song_transfer, process_song, relative_song_path,
    should_transfer_song, DirEntryInfo,
};
use transfer_music_favourites::sync::transfer::{
    accepts, transfer_step, FfmpegRun, TransferAction, TransferError, TransferEvent, TransferOutcome,
    TransferPlan, TransferStage,
};
use transfer_music_favourites::sync::{self as single, run_start, should_sync_song, sync_songs, RunStart};

fn config(format: Option<Format>, on_conflict: ConflictStrategy) -> SyncConfig {
    SyncConfig {
        navidrome_dir: String::from("/music"),
        local_dir: String::from("/local"),
        dest_dir: String::from("/dest"),
        format,
        on_conflict,
        priority: ConversionPriority::Balance,
        whitelist: None,
        blacklist: None,
    }
}

fn song(path: &str) -> Song {
    Song { title: String::from("Title"), artist: String::from("Artist"), path: String::from(path) }
}

fn strings(v: &[&str]) -> Vec<String> {
    v.iter().map(|s| s.to_string()).collect()
}

#[test]
fn relative_paths() {
    assert_eq!(relative_song_path("/music/Artist/Album/01.flac", "/music"), "Artist/Album/01.flac");
    assert_eq!(relative_song_path("/other/x.flac", "/music"), "other/x.flac");
    assert_eq!(relative_song_path("Artist/x.mp3", "/music"), "Artist/x.mp3");
    assert_eq!(relative_song_path("/musicals/x.mp3", "/music"), "musicals/x.mp3");
}

#[test]
fn converted_song_gets_target_extension() {
    let c = config(Some(Format::Mp3), ConflictStrategy::Overwrite);
    let plan = plan_song_transfer(&c, &song("/music/Artist/Album/01.flac"), "/music");
    assert_eq!(plan.title, "Title");
    assert_eq!(plan.navidrome_path, "/music/Artist/Album/01.flac");
    assert_eq!(plan.src_path, "/local/Artist/Album/01.flac");
    assert_eq!(plan.dst_path, "/dest/Artist/Album/01.mp3");
}

#[test]
fn kept_song_keeps_its_extension() {
    let c = config(Some(Format::Mp3), ConflictStrategy::Overwrite);
    let plan = plan_song_transfer(&c, &song("/music/A/02.MP3"), "/music");
    assert_eq!(plan.dst_path, "/dest/A/02.MP3");
    let c = config(None, ConflictStrategy::Overwrite);
    let plan = plan_song_transfer(&c, &song("/music/A/03.flac"), "/music");
    assert_eq!(plan.src_path, "/local/A/03.flac");
    assert_eq!(plan.dst_path, "/dest/A/03.flac");
}

#[test]
fn existing_destination_is_not_transferred() {
    let c = config(Some(Format::Opus), ConflictStrategy::Overwrite);
    assert!(should_transfer_song(&c, &song("/music/A/1.flac"), "/music", true).is_none());
    let plan = should_transfer_song(&c, &song("/music/A/1.flac"), "/music", false).unwrap();
    assert_eq!(plan.dst_path, "/dest/A/1.opus");
}

fn entry(path: &str, is_file: bool) -> DirEntryInfo {
    DirEntryInfo { path: String::from(path), is_file }
}

fn listing() -> Vec<DirEntryInfo> {
    vec![
        entry("/dest/A/song.flac", true),
        entry("/dest/A/song.mp3", true),
        entry("/dest/A/other.flac", true),
        entry("/dest/A/song", false),
        entry("/dest/A/song.ogg", true),
    ]
}

#[test]
fn overwrite_removes_same_stem_files() {
    let r = handle_conflicts(ConflictStrategy::Overwrite, "/dest/A/song.mp3", &listing());
    assert!(!r.skip);
    assert_eq!(r.remove, strings(&["/dest/A/song.flac", "/dest/A/song.ogg"]));
}

#[test]
fn ignore_skips_on_conflict() {
    let r = handle_conflicts(ConflictStrategy::Ignore, "/dest/A/song.mp3", &listing());
    assert!(r.skip);
    assert!(r.remove.is_empty());
    let r = handle_conflicts(ConflictStrategy::Ignore, "/dest/A/new.mp3", &listing());
    assert!(!r.skip);
    assert!(r.remove.is_empty());
}

#[test]
fn ffmpeg_arguments() {
    let mut c = config(Some(Format::Opus), ConflictStrategy::Overwrite);
    c.priority = ConversionPriority::Quality;
    let conv = convert_song(&c, "/local/A/s.flac", "/dest/A/s.opus");
    assert_eq!(conv.tmp, "/dest/A/.tmp.s.opus");
    assert_eq!(conv.args, strings(&["-i", "/local/A/s.flac", "-vn", "-c:a", "libopus", "-b:a", "192k", "-y", "/dest/A/.tmp.s.opus"]));

    c.format = Some(Format::Mp3);
    c.priority = ConversionPriority::Compression;
    let conv = conversion::convert_song(&c, "/local/A/s.flac", "/dest/A/s.mp3");
    assert_eq!(conv.tmp, "/dest/A/.tmp.s.mp3");
    assert_eq!(
        conv.args,
        strings(&["-i", "/local/A/s.flac", "-map_metadata", "0", "-vn", "-c:a", "libmp3lame", "-q:a", "5", "-y", "/dest/A/.tmp.s.mp3"])
    );
}

#[test]
fn codec_settings_table() {
    assert_eq!(codec_settings(Format::Mp3, ConversionPriority::Quality), ("libmp3lame", "-q:a", "0"));
    assert_eq!(codec_settings(Format::Mp3, ConversionPriority::Balance), ("libmp3lame", "-q:a", "2"));
    assert_eq!(codec_settings(Format::Opus, ConversionPriority::Balance), ("libopus", "-b:a", "128k"));
    assert_eq!(codec_settings(Format::Opus, ConversionPriority::Compression), ("libopus", "-b:a", "64k"));
    assert_eq!(codec_settings(Format::Ogg, ConversionPriority::Quality), ("libvorbis", "-q:a", "8"));
    assert_eq!(codec_settings(Format::Ogg, ConversionPriority::Balance), ("libvorbis", "-q:a", "5"));
    assert_eq!(codec_settings(Format::Ogg, ConversionPriority::Compression), ("libvorbis", "-q:a", "2"));
}

fn planned(src: &str, dst: &str) -> SongToConvert {
    SongToConvert {
        title: String::from("T"),
        navidrome_path: String::from("/music/x"),
        src_path: String::from(src),
        dst_path: String::from(dst),
    }
}

/// Runs one step, checking that the event fits the stage.
fn step(plan: &TransferPlan, stage: TransferStage, event: TransferEvent) -> (TransferStage, TransferAction) {
    assert!(accepts(plan, &stage, &event));
    transfer_step(plan, stage, event)
}

#[test]
fn copy_protocol() {
    let c = config(Some(Format::Mp3), ConflictStrategy::Overwrite);
    let plan = process_song(&c, &planned("/local/A/s.mp3", "/dest/A/s.mp3"));
    assert!(plan.conversion.is_none());
    let (st, a) = step(&plan, TransferStage::Start, TransferEvent::Begin);
    assert!(matches!(&a, TransferAction::CheckSource(p) if p == "/local/A/s.mp3"));
    let (st, a) = step(&plan, st, TransferEvent::SourceChecked(true));
    assert!(matches!(&a, TransferAction::CreateDir(p) if p == "/dest/A"));
    let (st, a) = step(&plan, st, TransferEvent::DirCreated(Ok(())));
    assert!(matches!(&a, TransferAction::ListDir(p) if p == "/dest/A"));
    let (st, a) = step(&plan, st, TransferEvent::DirListed(Some(vec![entry("/dest/A/s.flac", true)])));
    assert!(matches!(&a, TransferAction::RemoveFiles(ps) if *ps == strings(&["/dest/A/s.flac"])));
    let (st, a) = step(&plan, st, TransferEvent::FilesRemoved);
    assert!(matches!(&a, TransferAction::Copy(f, t) if f == "/local/A/s.mp3" && t == "/dest/A/s.mp3"));
    let (st, a) = step(&plan, st, TransferEvent::Copied(Ok(())));
    assert!(matches!(st, TransferStage::Done));
    assert!(matches!(a, TransferAction::Finish(Ok(TransferOutcome::Transferred))));
}

#[test]
fn missing_source_fails() {
    let c = config(Some(Format::Mp3), ConflictStrategy::Overwrite);
    let plan = process_song(&c, &planned("/local/A/s.flac", "/dest/A/s.mp3"));
    let (st, _) = step(&plan, TransferStage::Start, TransferEvent::Begin);
    let (st, a) = step(&plan, st, TransferEvent::SourceChecked(false));
    assert!(matches!(st, TransferStage::Done));
    assert!(matches!(&a, TransferAction::Finish(Err(TransferError::SourceNotFound(p))) if p == "/local/A/s.flac"));
    assert!(!accepts(&plan, &st, &TransferEvent::Begin));
}

#[test]
fn ignore_skips_conflicting_song() {
    let c = config(Some(Format::Mp3), ConflictStrategy::Ignore);
    let plan = process_song(&c, &planned("/local/A/s.flac", "/dest/A/s.mp3"));
    let (st, _) = step(&plan, TransferStage::Start, TransferEvent::Begin);
    let (st, _) = step(&plan, st, TransferEvent::SourceChecked(true));
    let (st, _) = step(&plan, st, TransferEvent::DirCreated(Ok(())));
    let (st, a) = step(&plan, st, TransferEvent::DirListed(Some(vec![entry("/dest/A/s.ogg", true)])));
    assert!(matches!(st, TransferStage::Done));
    assert!(matches!(a, TransferAction::Finish(Ok(TransferOutcome::Skipped))));
}

#[test]
fn directory_failure_ends_transfer() {
    let c = config(None, ConflictStrategy::Ignore);
    let plan = process_song(&c, &planned("/local/A/s.flac", "/dest/A/s.flac"));
    let (st, _) = step(&plan, TransferStage::Start, TransferEvent::Begin);
    let (st, _) = step(&plan, st, TransferEvent::SourceChecked(true));
    let (st, a) = step(&plan, st, TransferEvent::DirCreated(Err(String::from("denied"))));
    assert!(matches!(st, TransferStage::Done));
    assert!(matches!(&a, TransferAction::Finish(Err(TransferError::Io(m))) if m == "denied"));
}

#[test]
fn conversion_protocol() {
    let c = config(Some(Format::Ogg), ConflictStrategy::Overwrite);
    let plan = process_song(&c, &planned("/local/A/s.flac", "/dest/A/s.ogg"));
    let (st, _) = step(&plan, TransferStage::Start, TransferEvent::Begin);
    let (st, _) = step(&plan, st, TransferEvent::SourceChecked(true));
    let (st, _) = step(&plan, st, TransferEvent::DirCreated(Ok(())));
    let (st, a) = step(&plan, st, TransferEvent::DirListed(None));
    let expected = strings(&["-i", "/local/A/s.flac", "-vn", "-c:a", "libvorbis", "-q:a", "5", "-y", "/dest/A/.tmp.s.ogg"]);
    assert!(matches!(&a, TransferAction::RunFfmpeg(args) if *args == expected));
    let (st, a) = step(&plan, st, TransferEvent::FfmpegFinished(Ok(FfmpegRun { success: true, stderr: String::new() })));
    assert!(matches!(&a, TransferAction::Rename(f, t) if f == "/dest/A/.tmp.s.ogg" && t == "/dest/A/s.ogg"));
    let (st, a) = step(&plan, st, TransferEvent::Renamed(Ok(())));
    assert!(matches!(st, TransferStage::Done));
    assert!(matches!(a, TransferAction::Finish(Ok(TransferOutcome::Transferred))));
}

#[test]
fn failed_conversion_removes_temp() {
    let c = config(Some(Format::Ogg), ConflictStrategy::Overwrite);
    let plan = process_song(&c, &planned("/local/A/s.flac", "/dest/A/s.ogg"));
    let (st, _) = step(&plan, TransferStage::Start, TransferEvent::Begin);
    let (st, _) = step(&plan, st, TransferEvent::SourceChecked(true));
    let (st, _) = step(&plan, st, TransferEvent::DirCreated(Ok(())));
    let (st, _) = step(&plan, st, TransferEvent::DirListed(Some(vec![])));
    let run = FfmpegRun { success: false, stderr: String::from("bad input") };
    let (st, a) = step(&plan, st, TransferEvent::FfmpegFinished(Ok(run)));
    assert!(matches!(&a, TransferAction::RemoveTemp(t) if t == "/dest/A/.tmp.s.ogg"));
    let (st, a) = step(&plan, st, TransferEvent::TempRemoved);
    assert!(matches!(st, TransferStage::Done));
    assert!(matches!(&a, TransferAction::Finish(Err(TransferError::Ffmpeg(m))) if m == "bad input"));
}

#[test]
fn failed_launch_keeps_temp_in_process_song() {
    let c = config(Some(Format::Ogg), ConflictStrategy::Overwrite);
    let plan = process_song(&c, &planned("/local/A/s.flac", "/dest/A/s.ogg"));
    let (st, _) = step(&plan, TransferStage::Start, TransferEvent::Begin);
    let (st, _) = step(&plan, st, TransferEvent::SourceChecked(true));
    let (st, _) = step(&plan, st, TransferEvent::DirCreated(Ok(())));
    let (st, _) = step(&plan, st, TransferEvent::DirListed(None));
    let (st, a) = step(&plan, st, TransferEvent::FfmpegFinished(Err(String::from("no ffmpeg"))));
    assert!(matches!(st, TransferStage::Done));
    assert!(matches!(&a, TransferAction::Finish(Err(TransferError::Io(m))) if m == "no ffmpeg"));
}

#[test]
fn single_pass_plan() {
    let c = single::SyncConfig {
        navidrome_dir: String::from("/music"),
        local_dir: String::from("/local"),
        dest_dir: String::from("/dest"),
        format: Some(Format::Mp3),
        on_conflict: ConflictStrategy::Ignore,
        priority: ConversionPriority::Quality,
    };
    let plan = sync_songs(&c, &song("/music/A/s.flac"));
    assert_eq!(plan.src, "/local/A/s.flac");
    assert_eq!(plan.dst, "/dest/A/s.mp3");
    assert!(plan.clean_up_failed_launch);
    let conv = plan.conversion.as_ref().unwrap();
    assert_eq!(conv.tmp, "/dest/A/.tmp.s.mp3");
    assert_eq!(conv.args, strings(&["-i", "/local/A/s.flac", "-vn", "-c:a", "libmp3lame", "-q:a", "0", "-y", "/dest/A/.tmp.s.mp3"]));

    let plan = sync_songs(&c, &song("/music/A/s.Mp3"));
    assert_eq!(plan.dst, "/dest/A/s.mp3");
    assert!(plan.conversion.is_none());

    let (st, _) = step(&plan, TransferStage::Start, TransferEvent::Begin);
    let (st, _) = step(&plan, st, TransferEvent::SourceChecked(true));
    let (st, _) = step(&plan, st, TransferEvent::DirCreated(Ok(())));
    let (_, a) = step(&plan, st, TransferEvent::DirListed(None));
    assert!(matches!(&a, TransferAction::Copy(f, t) if f == "/local/A/s.Mp3" && t == "/dest/A/s.mp3"));
}

#[test]
fn single_pass_launch_failure_cleans_up() {
    let c = single::SyncConfig {
        navidrome_dir: String::from("/music"),
        local_dir: String::from("/local"),
        dest_dir: String::from("/dest"),
        format: Some(Format::Opus),
        on_conflict: ConflictStrategy::Overwrite,
        priority: ConversionPriority::Balance,
    };
    let plan = sync_songs(&c, &song("/music/A/s.flac"));
    let (st, _) = step(&plan, TransferStage::Start, TransferEvent::Begin);
    let (st, _) = step(&plan, st, TransferEvent::SourceChecked(true));
    let (st, _) = step(&plan, st, TransferEvent::DirCreated(Ok(())));
    let (st, _) = step(&plan, st, TransferEvent::DirListed(None));
    let (st, a) = step(&plan, st, TransferEvent::FfmpegFinished(Err(String::from("gone"))));
    assert!(matches!(&a, TransferAction::RemoveTemp(t) if t == "/dest/A/.tmp.s.opus"));
    let (_, a) = step(&plan, st, TransferEvent::TempRemoved);
    assert!(matches!(&a, TransferAction::Finish(Err(TransferError::Io(m))) if m == "gone"));
}

#[test]
fn lyric_files() {
    let c = config(None, ConflictStrategy::Overwrite);
    let paths = lyric_song_paths(&c, &song("/music/A/B/s.flac"));
    assert_eq!(paths.source, "/local/A/B/s.flac");
    assert_eq!(paths.dest, "/dest/A/B/s.flac");
    let paths = lyric_song_paths(&c, &song("/musicals/s.flac"));
    assert_eq!(paths.source, "/local/musicals/s.flac");
    let paths = lyric_song_paths(&c, &song("/music2/x.flac"));
    assert_eq!(paths.source, "/local/music2/x.flac");
    assert_eq!(paths.dest, "/dest/music2/x.flac");

    let t = transfer_lyric_file("/local/A/s.flac", "/dest/A/s.flac");
    assert_eq!(t.len(), 2);
    assert_eq!(t[0].from, "/local/A/s.lrc");
    assert_eq!(t[0].to, "/dest/A/s.lrc");
    assert_eq!(t[0].dir.as_deref(), Some("/dest/A"));
    assert_eq!(t[1].from, "/local/A/s.txt");
    assert_eq!(t[1].to, "/dest/A/s.txt");
}

#[test]
fn run_start_decisions() {
    assert_eq!(run_start(0, Some(Format::Mp3)), RunStart::NoSongs);
    assert_eq!(run_start(0, None), RunStart::NoSongs);
    assert_eq!(run_start(3, Some(Format::Ogg)), RunStart::CheckFfmpeg);
    assert_eq!(run_start(1, None), RunStart::Transfer);
}

#[test]
fn single_pass_skips_existing_destination() {
    let c = single::SyncConfig {
        navidrome_dir: String::from("/music"),
        local_dir: String::from("/local"),
        dest_dir: String::from("/dest"),
        format: None,
        on_conflict: ConflictStrategy::Overwrite,
        priority: ConversionPriority::Balance,
    };
    assert!(should_sync_song(&c, &song("/music/A/s.flac"), true).is_none());
    let plan = should_sync_song(&c, &song("/music/A/s.flac"), false).unwrap();
    assert_eq!(plan.dst, "/dest/A/s.flac");
    assert!(plan.conversion.is_none());
}

#[test]
fn extensions_and_stems_follow_the_file_name() {
    let c = config(Some(Format::Mp3), ConflictStrategy::Overwrite);
    // A dot-file has no extension, so it is converted and gets one.
    let plan = plan_song_transfer(&c, &song("/music/A/.hidden"), "/music");
    assert_eq!(plan.dst_path, "/dest/A/.hidden.mp3");
    // Only the part after the final dot counts.
    let plan = plan_song_transfer(&c, &song("/music/A/b.mp3.flac"), "/music");
    assert_eq!(plan.dst_path, "/dest/A/b.mp3.mp3");
    let r = handle_conflicts(ConflictStrategy::Overwrite, "/dest/A/b.mp3.mp3", &vec![entry("/dest/A/b.mp3.ogg", true), entry("/dest/A/b.ogg", true)]);
    assert_eq!(r.remove, strings(&["/dest/A/b.mp3.ogg"]));
}

#[test]
fn single_pass_conversion_uses_hidden_temp() {
    let c = single::SyncConfig {
        navidrome_dir: String::from("/music"),
        local_dir: String::from("/local"),
        dest_dir: String::from("/dest"),
        format: Some(Format::Opus),
        on_conflict: ConflictStrategy::Overwrite,
        priority: ConversionPriority::Balance,
    };
    let plan = sync_songs(&c, &song("/music/A/song.flac"));
    assert_eq!(plan.dst, "/dest/A/song.opus");
    let conv = plan.conversion.as_ref().unwrap();
    assert_eq!(conv.tmp, "/dest/A/.tmp.song.opus");
    assert_eq!(conv.args, strings(&["-i", "/local/A/song.flac", "-vn", "-c:a", "libopus", "-b:a", "128k", "-y", "/dest/A/.tmp.song.opus"]));
    let (st, _) = step(&plan, TransferStage::Start, TransferEvent::Begin);
    let (st, _) = step(&plan, st, TransferEvent::SourceChecked(true));
    let (st, _) = step(&plan, st, TransferEvent::DirCreated(Ok(())));
    let (st, _) = step(&plan, st, TransferEvent::DirListed(None));
    let (st, a) = step(&plan, st, TransferEvent::FfmpegFinished(Ok(FfmpegRun { success: true, stderr: String::new() })));
    assert!(matches!(&a, TransferAction::Rename(f, t) if f == "/dest/A/.tmp.song.opus" && t == "/dest/A/song.opus"));
    let (_, a) = step(&plan, st, TransferEvent::Renamed(Ok(())));
    assert!(matches!(a, TransferAction::Finish(Ok(TransferOutcome::Transferred))));
}
