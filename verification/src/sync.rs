//! Planning the transfer of songs and lyrics.
//!
//! This module also holds the single-pass synchronisation settings, in which
//! every song gets the target format's extension and is converted unless its
//! extension already is the target's.
pub mod conversion;
pub mod sync_lyrics;
pub mod sync_music;
pub mod transfer;
pub mod utils;

use vstd::prelude::*;

use crate::models::{
    format_extension, lemma_format_extension_is_plain, ConflictStrategy, ConversionPriority,
    Format, Song,
};
use crate::paths::{extension, join, path_extension, path_join, path_with_extension, with_extension};
use crate::sync::conversion::{
    codec_settings, owned_strings, string_views, temp_destination, temp_destination_spec,
    Conversion,
};
use crate::sync::sync_music::{conversion_args_spec, relative_song_path, relative_song_path_spec};
use crate::sync::transfer::TransferPlan;
use crate::text::{eq_ignore_ascii_case, eq_ignore_ascii_case_spec};

verus! {

/// How a synchronisation run begins.
#[derive(Clone, Copy, Debug, PartialEq, Eq, Structural)]
pub enum RunStart {
    /// There are no songs: the run reports that and ends.
    NoSongs,
    /// Songs are converted: ffmpeg must be present before any transfer.
    CheckFfmpeg,
    /// The transfers start at once.
    Transfer,
}

/// How a run over `song_count` songs begins: with no songs it ends at
/// once; with a target format it first makes sure ffmpeg is present.
pub fn run_start(song_count: usize, format: Option<Format>) -> (start: RunStart)
    ensures
        song_count == 0 ==> start == RunStart::NoSongs,
        song_count > 0 && format is Some ==> start == RunStart::CheckFfmpeg,
        song_count > 0 && format is None ==> start == RunStart::Transfer,
{
    if song_count == 0 {
        RunStart::NoSongs
    } else if format.is_some() {
        RunStart::CheckFfmpeg
    } else {
        RunStart::Transfer
    }
}

/// The settings of a single-pass synchronisation run.
pub struct SyncConfig {
    pub navidrome_dir: String,
    pub local_dir: String,
    pub dest_dir: String,
    pub format: Option<Format>,
    pub on_conflict: ConflictStrategy,
    pub priority: ConversionPriority,
}

/// A song is converted when a format is set and its source's extension is
/// not the format's (up to ASCII case); a source without extension is.
pub open spec fn single_pass_needs_conversion(format: Option<Format>, source_ext: Option<Seq<char>>) -> bool {
    match format {
        Some(f) => match source_ext {
            Some(e) => !eq_ignore_ascii_case_spec(e, format_extension(f)),
            None => true,
        },
        None => false,
    }
}

/// Where a song goes: its relative path under the destination directory,
/// with the format's extension whenever a format is set.
pub open spec fn single_pass_destination(config: SyncConfig, song_path: Seq<char>) -> Seq<char> {
    let dest = path_join(config.dest_dir@, relative_song_path_spec(song_path, config.navidrome_dir@));
    match config.format {
        Some(f) => path_with_extension(dest, format_extension(f)),
        None => dest,
    }
}

/// The transfer of `song` in a single-pass run: from its relative path under
/// the local directory to `destination`; converted as
/// `single_pass_needs_conversion` says, by ffmpeg dropping any video stream
/// and writing the hidden temporary file `.tmp.<file name>` beside the
/// destination first; the temporary file is removed after any failed run,
/// also one that could not start.
pub open spec fn single_pass_plan(config: SyncConfig, song: Song, plan: TransferPlan) -> bool {
    let source = path_join(config.local_dir@, relative_song_path_spec(song.path@, config.navidrome_dir@));
    let dest = single_pass_destination(config, song.path@);
    &&& plan.src@ == source
    &&& plan.dst@ == dest
    &&& plan.on_conflict == config.on_conflict
    &&& plan.clean_up_failed_launch
    &&& if single_pass_needs_conversion(config.format, path_extension(source)) {
        &&& plan.conversion matches Some(conv)
        &&& conv.tmp@ == temp_destination_spec(dest)
        &&& string_views(conv.args@) == conversion_args_spec(config.format->0, config.priority, source, conv.tmp@)
    } else {
        plan.conversion is None
    }
}

/// Plans the transfer of one song in a single-pass run; `sync_songs` then
/// drives it with `transfer_step` after checking that nothing stands at the
/// destination yet.
pub fn sync_songs(config: &SyncConfig, song: &Song) -> (plan: TransferPlan)
    ensures
        single_pass_plan(*config, *song, plan),
{
    let rel = relative_song_path(song.path.as_str(), config.navidrome_dir.as_str());
    let source = join(config.local_dir.as_str(), rel.as_str());
    let mut dest = join(config.dest_dir.as_str(), rel.as_str());
    if let Some(format) = &config.format {
        proof {
            lemma_format_extension_is_plain(*format);
        }
        dest = with_extension(dest.as_str(), format.as_ref());
    }
    let convert = match config.format {
        Some(f) => match extension(source.as_str()) {
            Some(e) => !eq_ignore_ascii_case(e.as_str(), f.as_ref()),
            None => true,
        },
        None => false,
    };
    let conversion = if convert {
        let format = config.format.unwrap();
        let tmp = temp_destination(dest.as_str());
        let (codec, flag, value) = codec_settings(format, config.priority);
        let args = owned_strings(&["-i", source.as_str(), "-vn", "-c:a", codec, flag, value, "-y", tmp.as_str()]);
        assert(string_views(args@) =~= conversion_args_spec(format, config.priority, source@, tmp@));
        Some(Conversion { args, tmp })
    } else {
        None
    };
    TransferPlan {
        src: source,
        dst: dest,
        on_conflict: config.on_conflict,
        conversion,
        clean_up_failed_launch: true,
    }
}

/// Decides whether a single-pass run transfers `song`: `dest_exists` tells
/// whether a file already stands at the destination that `sync_songs`
/// plans for it; then the song is left alone (`None`), otherwise its plan
/// is returned.
pub fn should_sync_song(config: &SyncConfig, song: &Song, dest_exists: bool) -> (res: Option<TransferPlan>)
    ensures
        dest_exists ==> res is None,
        !dest_exists ==> (res matches Some(plan) && single_pass_plan(*config, *song, plan)),
{
    if dest_exists {
        None
    } else {
        Some(sync_songs(config, song))
    }
}

/// With a target format, a single-pass plan writes to the relative path
/// under the destination directory with the format's extension, and
/// converts exactly when the source's extension differs from the format's,
/// up to ASCII case, or is missing.
pub proof fn lemma_single_pass_converts_other_formats(config: SyncConfig, song: Song, plan: TransferPlan, format: Format)
    requires
        single_pass_plan(config, song, plan),
        config.format == Some(format),
    ensures
        plan.src@ == path_join(config.local_dir@, relative_song_path_spec(song.path@, config.navidrome_dir@)),
        plan.dst@ == path_with_extension(
            path_join(config.dest_dir@, relative_song_path_spec(song.path@, config.navidrome_dir@)),
            format_extension(format),
        ),
        path_extension(plan.src@) is None ==> plan.conversion is Some,
        path_extension(plan.src@) matches Some(e) ==> (plan.conversion is Some <==> !eq_ignore_ascii_case_spec(e, format_extension(format))),
{
}

/// Without a target format a single-pass plan copies the song to its
/// relative path under the destination directory.
pub proof fn lemma_single_pass_without_format_copies(config: SyncConfig, song: Song, plan: TransferPlan)
    requires
        single_pass_plan(config, song, plan),
        config.format is None,
    ensures
        plan.conversion is None,
        plan.dst@ == path_join(config.dest_dir@, relative_song_path_spec(song.path@, config.navidrome_dir@)),
{
}

} // verus!
