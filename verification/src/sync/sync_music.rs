//! Planning the transfer of one song: where it comes from, where it goes,
//! which files in the destination directory conflict with it, and the
//! ffmpeg run that converts it.
use vstd::prelude::*;

use crate::models::{
    format_extension, lemma_format_extension_is_plain, ConflictStrategy, Format, Song,
    SongToConvert, SyncConfig,
};
use crate::paths::{
    file_stem, join, path_eq, path_extension, path_file_stem, path_join, path_strip_prefix,
    path_with_extension, same_path, strip_prefix, with_extension,
};
use crate::sync::conversion::{
    codec_settings, codec_settings_spec, owned_strings, string_views, temp_destination,
    temp_destination_spec, Conversion,
};
use crate::sync::transfer::TransferPlan;
use crate::sync::utils::{
    lemma_lists_select_conversions, listed, needs_conversion, needs_conversion_spec,
};

verus! {

/// The path of a song relative to the music directory: the server's music
/// directory is taken off the front when it is a leading part, and then a
/// leading `/` when there is one.
pub open spec fn relative_song_path_spec(song_path: Seq<char>, navidrome_dir: Seq<char>) -> Seq<char> {
    let rel = match path_strip_prefix(song_path, navidrome_dir) {
        Some(r) => r,
        None => song_path,
    };
    match path_strip_prefix(rel, "/"@) {
        Some(r) => r,
        None => rel,
    }
}

/// The path of the song at `song_path` relative to the music directory.
pub fn relative_song_path(song_path: &str, navidrome_dir: &str) -> (rel: String)
    ensures
        rel@ == relative_song_path_spec(song_path@, navidrome_dir@),
{
    let rel = match strip_prefix(song_path, navidrome_dir) {
        Some(r) => r,
        None => song_path.to_owned(),
    };
    match strip_prefix(rel.as_str(), "/") {
        Some(r) => r,
        None => rel,
    }
}

/// Where a song is read from: its relative path under the local directory.
pub open spec fn source_path_spec(config: SyncConfig, song_path: Seq<char>, navidrome_dir: Seq<char>) -> Seq<char> {
    path_join(config.local_dir@, relative_song_path_spec(song_path, navidrome_dir))
}

/// Where a song is written to: its relative path under the destination
/// directory, with the target format's extension when it is converted.
pub open spec fn destination_path_spec(config: SyncConfig, song_path: Seq<char>, navidrome_dir: Seq<char>) -> Seq<char> {
    let dest = path_join(config.dest_dir@, relative_song_path_spec(song_path, navidrome_dir));
    let source = source_path_spec(config, song_path, navidrome_dir);
    match config.format {
        Some(format) => if needs_conversion_spec(config, path_extension(source)) {
            path_with_extension(dest, format_extension(format))
        } else {
            dest
        },
        None => dest,
    }
}

/// The transfer plan of `song`: its title and server path, and its source
/// and destination paths.
pub open spec fn planned_transfer(config: SyncConfig, song: Song, navidrome_dir: Seq<char>, plan: SongToConvert) -> bool {
    &&& plan.title@ == song.title@
    &&& plan.navidrome_path@ == song.path@
    &&& plan.src_path@ == source_path_spec(config, song.path@, navidrome_dir)
    &&& plan.dst_path@ == destination_path_spec(config, song.path@, navidrome_dir)
}

/// Computes where `song` is read from and written to.
pub fn plan_song_transfer(config: &SyncConfig, song: &Song, navidrome_dir: &str) -> (plan: SongToConvert)
    ensures
        planned_transfer(*config, *song, navidrome_dir@, plan),
{
    let rel = relative_song_path(song.path.as_str(), navidrome_dir);
    let source_path = join(config.local_dir.as_str(), rel.as_str());
    let mut dest_path = join(config.dest_dir.as_str(), rel.as_str());
    let needs = needs_conversion(config, source_path.as_str());
    if needs {
        if let Some(format) = &config.format {
            proof {
                lemma_format_extension_is_plain(*format);
            }
            dest_path = with_extension(dest_path.as_str(), format.as_ref());
        }
    }
    SongToConvert {
        title: song.title.clone(),
        navidrome_path: song.path.clone(),
        src_path: source_path,
        dst_path: dest_path,
    }
}

/// Decides whether `song` is transferred. `dest_exists` tells whether a
/// file already stands at the destination that `plan_song_transfer` gives
/// for it; then the song is left alone (`None`). Otherwise its plan is
/// returned.
pub fn should_transfer_song(config: &SyncConfig, song: &Song, navidrome_dir: &str, dest_exists: bool) -> (res: Option<SongToConvert>)
    ensures
        dest_exists ==> res is None,
        !dest_exists ==> (res matches Some(plan) && planned_transfer(*config, *song, navidrome_dir@, plan)),
{
    if dest_exists {
        None
    } else {
        Some(plan_song_transfer(config, song, navidrome_dir))
    }
}

/// An entry of a directory listing.
pub struct DirEntryInfo {
    pub path: String,
    pub is_file: bool,
}

/// The stem of `dest`, or the empty string when it has none.
pub open spec fn stem_or_empty(dest: Seq<char>) -> Seq<char> {
    match path_file_stem(dest) {
        Some(stem) => stem,
        None => Seq::empty(),
    }
}

/// An entry conflicts with the destination `dest` when it is a file other
/// than `dest` whose stem is the stem of `dest`: the same song in another
/// format.
pub open spec fn conflicts_with(entry: DirEntryInfo, dest: Seq<char>) -> bool {
    &&& entry.is_file
    &&& path_file_stem(entry.path@) == Some(stem_or_empty(dest))
    &&& !path_eq(entry.path@, dest)
}

/// The paths of the entries that conflict with `dest`, in listing order.
pub open spec fn conflicting_paths(entries: Seq<DirEntryInfo>, dest: Seq<char>) -> Seq<Seq<char>>
    decreases entries.len(),
{
    if entries.len() == 0 {
        Seq::empty()
    } else {
        let before = conflicting_paths(entries.drop_last(), dest);
        if conflicts_with(entries.last(), dest) {
            before.push(entries.last().path@)
        } else {
            before
        }
    }
}

/// Every file that conflicts with `dest` has the stem of `dest`, is not
/// `dest` itself, and is listed as a file: resolving conflicts never touches
/// the destination or other songs.
pub proof fn lemma_conflicts_spare_destination(entries: Seq<DirEntryInfo>, dest: Seq<char>)
    ensures
        forall|i: int| 0 <= i < conflicting_paths(entries, dest).len() ==> {
            let p = #[trigger] conflicting_paths(entries, dest)[i];
            &&& !path_eq(p, dest)
            &&& path_file_stem(p) == Some(stem_or_empty(dest))
            &&& exists|j: int| 0 <= j < entries.len() && entries[j].path@ == p && (#[trigger] entries[j]).is_file
        },
    decreases entries.len(),
{
    if entries.len() > 0 {
        let rest = entries.drop_last();
        lemma_conflicts_spare_destination(rest, dest);
        assert forall|i: int| 0 <= i < conflicting_paths(entries, dest).len() implies {
            let p = #[trigger] conflicting_paths(entries, dest)[i];
            &&& !path_eq(p, dest)
            &&& path_file_stem(p) == Some(stem_or_empty(dest))
            &&& exists|j: int| 0 <= j < entries.len() && entries[j].path@ == p && (#[trigger] entries[j]).is_file
        } by {
            if i < conflicting_paths(rest, dest).len() {
                let p = conflicting_paths(rest, dest)[i];
                let j = choose|j: int| 0 <= j < rest.len() && rest[j].path@ == p && (#[trigger] rest[j]).is_file;
                assert(entries[j] == rest[j]);
            } else {
                assert(entries[entries.len() - 1] == entries.last());
            }
        }
    }
}

/// Every listed entry that conflicts with `dest` is found, and there are
/// conflicts exactly when some entry conflicts.
pub proof fn lemma_every_conflict_is_found(entries: Seq<DirEntryInfo>, dest: Seq<char>)
    ensures
        forall|j: int| 0 <= j < entries.len() && conflicts_with(#[trigger] entries[j], dest)
            ==> conflicting_paths(entries, dest).contains(entries[j].path@),
        conflicting_paths(entries, dest).len() > 0
            <==> exists|j: int| 0 <= j < entries.len() && conflicts_with(#[trigger] entries[j], dest),
    decreases entries.len(),
{
    if entries.len() > 0 {
        let rest = entries.drop_last();
        lemma_every_conflict_is_found(rest, dest);
        let found = conflicting_paths(entries, dest);
        let before = conflicting_paths(rest, dest);
        assert forall|j: int| 0 <= j < entries.len() && conflicts_with(#[trigger] entries[j], dest)
            implies found.contains(entries[j].path@) by {
            if j < rest.len() {
                assert(entries[j] == rest[j]);
                let k = choose|k: int| 0 <= k < before.len() && before[k] == rest[j].path@;
                assert(found[k] == before[k]);
            } else {
                assert(entries[j] == entries.last());
                assert(found[found.len() - 1] == entries[j].path@);
            }
        }
        if found.len() > 0 {
            if conflicts_with(entries.last(), dest) {
                assert(conflicts_with(entries[entries.len() - 1], dest));
            } else {
                let j = choose|j: int| 0 <= j < rest.len() && conflicts_with(#[trigger] rest[j], dest);
                assert(entries[j] == rest[j]);
            }
        }
        if exists|j: int| 0 <= j < entries.len() && conflicts_with(#[trigger] entries[j], dest) {
            let j = choose|j: int| 0 <= j < entries.len() && conflicts_with(#[trigger] entries[j], dest);
            assert(found.contains(entries[j].path@));
        }
    }
}

/// What to do about the files that conflict with a destination.
pub struct ConflictResolution {
    /// The files to remove before the song is written.
    pub remove: Vec<String>,
    /// Whether the song is left alone.
    pub skip: bool,
}

/// Decides what to do about the files in the destination directory that
/// conflict with `dest`: with `Overwrite` they are all removed and the song
/// is written; with `Ignore` nothing is removed and the song is skipped when
/// there is any.
pub fn handle_conflicts(on_conflict: ConflictStrategy, dest: &str, entries: &Vec<DirEntryInfo>) -> (res: ConflictResolution)
    ensures
        on_conflict == ConflictStrategy::Overwrite ==> string_views(res.remove@) == conflicting_paths(entries@, dest@),
        on_conflict == ConflictStrategy::Overwrite ==> !res.skip,
        on_conflict == ConflictStrategy::Ignore ==> res.remove@.len() == 0,
        on_conflict == ConflictStrategy::Ignore ==> res.skip == (conflicting_paths(entries@, dest@).len() > 0),
{
    let stem = match file_stem(dest) {
        Some(s) => s,
        None => String::new(),
    };
    let mut found: Vec<String> = Vec::new();
    let mut i: usize = 0;
    while i < entries.len()
        invariant
            i <= entries@.len(),
            stem@ == stem_or_empty(dest@),
            string_views(found@) == conflicting_paths(entries@.take(i as int), dest@),
        decreases entries@.len() - i,
    {
        let entry = &entries[i];
        let ghost prefix = entries@.take(i as int);
        assert(entries@.take(i + 1).drop_last() =~= prefix);
        assert(entries@.take(i + 1).last() == entries@[i as int]);
        if entry.is_file {
            let entry_stem = file_stem(entry.path.as_str());
            let same_stem = match &entry_stem {
                Some(s) => *s == stem,
                None => false,
            };
            if same_stem && !same_path(entry.path.as_str(), dest) {
                let ghost before = found@;
                found.push(entry.path.clone());
                assert(string_views(found@) =~= string_views(before).push(entry.path@));
            }
        }
        i = i + 1;
    }
    assert(entries@.take(entries@.len() as int) =~= entries@);
    let any = found.len() > 0;
    match on_conflict {
        ConflictStrategy::Overwrite => ConflictResolution { remove: found, skip: false },
        ConflictStrategy::Ignore => ConflictResolution { remove: Vec::new(), skip: any },
    }
}

/// The arguments of the ffmpeg run that converts `source` into `tmp_dest`,
/// dropping any video stream: `-i source -vn -c:a codec flag value -y tmp_dest`.
pub open spec fn conversion_args_spec(format: Format, priority: crate::models::ConversionPriority, source: Seq<char>, tmp_dest: Seq<char>) -> Seq<Seq<char>> {
    let (codec, flag, value) = codec_settings_spec(format, priority);
    seq!["-i"@, source, "-vn"@, "-c:a"@, codec, flag, value, "-y"@, tmp_dest]
}

/// The conversion of `source` into `dest` in the configured format;
/// ffmpeg writes the temporary file first.
pub fn convert_song(config: &SyncConfig, source: &str, dest: &str) -> (conv: Conversion)
    requires
        config.format is Some,
    ensures
        conv.tmp@ == temp_destination_spec(dest@),
        string_views(conv.args@) == conversion_args_spec(config.format->0, config.priority, source@, conv.tmp@),
{
    let format = config.format.unwrap();
    let tmp = temp_destination(dest);
    let (codec, flag, value) = codec_settings(format, config.priority);
    let args = owned_strings(&["-i", source, "-vn", "-c:a", codec, flag, value, "-y", tmp.as_str()]);
    assert(string_views(args@) =~= conversion_args_spec(format, config.priority, source@, tmp@));
    Conversion { args, tmp }
}

/// How `process_song` transfers `song`: from its source to its
/// destination under the configured conflict strategy; converted (with the
/// arguments of `convert_song`) exactly when the source needs conversion,
/// copied otherwise; a failed ffmpeg start leaves the temporary file alone.
pub open spec fn process_song_plan(config: SyncConfig, song: SongToConvert, plan: TransferPlan) -> bool {
    &&& plan.src@ == song.src_path@
    &&& plan.dst@ == song.dst_path@
    &&& plan.on_conflict == config.on_conflict
    &&& !plan.clean_up_failed_launch
    &&& if needs_conversion_spec(config, path_extension(song.src_path@)) {
        &&& plan.conversion matches Some(conv)
        &&& conv.tmp@ == temp_destination_spec(song.dst_path@)
        &&& string_views(conv.args@) == conversion_args_spec(config.format->0, config.priority, song.src_path@, conv.tmp@)
    } else {
        plan.conversion is None
    }
}

/// The transfer of one planned song, which `transfer_step` then drives.
pub fn process_song(config: &SyncConfig, song: &SongToConvert) -> (plan: TransferPlan)
    ensures
        process_song_plan(*config, *song, plan),
{
    let conversion = if needs_conversion(config, song.src_path.as_str()) {
        Some(convert_song(config, song.src_path.as_str(), song.dst_path.as_str()))
    } else {
        None
    };
    TransferPlan {
        src: song.src_path.clone(),
        dst: song.dst_path.clone(),
        on_conflict: config.on_conflict,
        conversion,
        clean_up_failed_launch: false,
    }
}

/// A planned song is read from its relative path under the local directory
/// and written to its relative path under the destination directory; the
/// destination takes the target format's extension exactly when the source
/// needs conversion, and is otherwise left unchanged.
pub proof fn lemma_destination_follows_conversion(config: SyncConfig, song: Song, navidrome_dir: Seq<char>, plan: SongToConvert)
    requires
        planned_transfer(config, song, navidrome_dir, plan),
    ensures
        plan.src_path@ == path_join(config.local_dir@, relative_song_path_spec(song.path@, navidrome_dir)),
        !needs_conversion_spec(config, path_extension(plan.src_path@))
            ==> plan.dst_path@ == path_join(config.dest_dir@, relative_song_path_spec(song.path@, navidrome_dir)),
        needs_conversion_spec(config, path_extension(plan.src_path@)) ==> (config.format is Some
            && plan.dst_path@ == path_with_extension(
                path_join(config.dest_dir@, relative_song_path_spec(song.path@, navidrome_dir)),
                format_extension(config.format->0),
            )),
{
}

/// The lists exclude `ext` from conversion: a whitelist does not hold it,
/// or, without a whitelist, a blacklist does.
pub open spec fn excluded_by_lists(config: SyncConfig, ext: Seq<char>) -> bool {
    match config.whitelist {
        Some(w) => !listed(w@, ext),
        None => match config.blacklist {
            Some(b) => listed(b@, ext),
            None => false,
        },
    }
}

/// A source whose extension is excluded by the lists (absent from a
/// whitelist, or on a blacklist when there is no whitelist) keeps its name
/// at the destination.
pub proof fn lemma_excluded_source_keeps_its_name(config: SyncConfig, song: Song, navidrome_dir: Seq<char>, plan: SongToConvert, ext: Seq<char>)
    requires
        planned_transfer(config, song, navidrome_dir, plan),
        path_extension(plan.src_path@) == Some(ext),
        excluded_by_lists(config, ext),
    ensures
        plan.dst_path@ == path_join(config.dest_dir@, relative_song_path_spec(song.path@, navidrome_dir)),
{
    if config.format is Some {
        lemma_lists_select_conversions(config, ext);
    }
}

/// `process_song` converts a song exactly when its source needs conversion
/// and copies it otherwise; a conversion runs ffmpeg on the source, drops
/// any video stream and writes the temporary file.
pub proof fn lemma_converted_exactly_when_needed(config: SyncConfig, song: SongToConvert, plan: TransferPlan)
    requires
        process_song_plan(config, song, plan),
    ensures
        plan.src@ == song.src_path@,
        plan.dst@ == song.dst_path@,
        plan.conversion is Some <==> needs_conversion_spec(config, path_extension(song.src_path@)),
        plan.conversion matches Some(c) ==> (c.args@.len() == 9
            && c.args@[0]@ == "-i"@ && c.args@[1]@ == song.src_path@ && c.args@[2]@ == "-vn"@
            && c.args@[8]@ == c.tmp@),
{
    if let Some(c) = plan.conversion {
        assert(string_views(c.args@).len() == c.args@.len());
        assert(string_views(c.args@)[1] == c.args@[1]@);
        assert(string_views(c.args@)[0] == c.args@[0]@);
        assert(string_views(c.args@)[2] == c.args@[2]@);
        assert(string_views(c.args@)[8] == c.args@[8]@);
    }
}

/// A source whose extension is excluded by the lists is copied, not
/// converted.
pub proof fn lemma_excluded_source_is_copied(config: SyncConfig, song: SongToConvert, plan: TransferPlan, ext: Seq<char>)
    requires
        process_song_plan(config, song, plan),
        path_extension(song.src_path@) == Some(ext),
        excluded_by_lists(config, ext),
    ensures
        plan.conversion is None,
{
    if config.format is Some {
        lemma_lists_select_conversions(config, ext);
    }
}

} // verus!
