//! The ffmpeg command lines that convert a song to the target format.
use vstd::prelude::*;

use crate::models::{ConversionPriority, Format, SyncConfig};
use crate::paths::{file_name, file_name_of, path_with_file_name, with_file_name};

verus! {

/// The encoder, its quality flag and the flag's value for a format and a
/// priority:
/// - mp3: `libmp3lame` with `-q:a` 0, 2 or 5;
/// - opus: `libopus` with `-b:a` 192k, 128k or 64k;
/// - ogg: `libvorbis` with `-q:a` 8, 5 or 2;
/// for quality, balance and compression in that order.
pub open spec fn codec_settings_spec(format: Format, priority: ConversionPriority) -> (Seq<char>, Seq<char>, Seq<char>) {
    match format {
        Format::Mp3 => ("libmp3lame"@, "-q:a"@, match priority {
            ConversionPriority::Quality => "0"@,
            ConversionPriority::Balance => "2"@,
            ConversionPriority::Compression => "5"@,
        }),
        Format::Opus => ("libopus"@, "-b:a"@, match priority {
            ConversionPriority::Quality => "192k"@,
            ConversionPriority::Balance => "128k"@,
            ConversionPriority::Compression => "64k"@,
        }),
        Format::Ogg => ("libvorbis"@, "-q:a"@, match priority {
            ConversionPriority::Quality => "8"@,
            ConversionPriority::Balance => "5"@,
            ConversionPriority::Compression => "2"@,
        }),
    }
}

/// The encoder settings for `format` at `priority`.
pub fn codec_settings(format: Format, priority: ConversionPriority) -> (res: (&'static str, &'static str, &'static str))
    ensures
        (res.0@, res.1@, res.2@) == codec_settings_spec(format, priority),
{
    match format {
        Format::Mp3 => ("libmp3lame", "-q:a", match priority {
            ConversionPriority::Quality => "0",
            ConversionPriority::Balance => "2",
            ConversionPriority::Compression => "5",
        }),
        Format::Opus => ("libopus", "-b:a", match priority {
            ConversionPriority::Quality => "192k",
            ConversionPriority::Balance => "128k",
            ConversionPriority::Compression => "64k",
        }),
        Format::Ogg => ("libvorbis", "-q:a", match priority {
            ConversionPriority::Quality => "8",
            ConversionPriority::Balance => "5",
            ConversionPriority::Compression => "2",
        }),
    }
}

/// The views of a vector of strings.
pub open spec fn string_views(v: Seq<String>) -> Seq<Seq<char>> {
    v.map_values(|s: String| s@)
}

/// Builds a vector of owned strings from string slices, in order.
pub fn owned_strings(parts: &[&str]) -> (res: Vec<String>)
    ensures
        res@.len() == parts@.len(),
        forall|i: int| 0 <= i < parts@.len() ==> #[trigger] res@[i]@ == parts@[i]@,
{
    let mut res: Vec<String> = Vec::new();
    let mut i: usize = 0;
    while i < parts.len()
        invariant
            i <= parts@.len(),
            res@.len() == i,
            forall|j: int| 0 <= j < i ==> #[trigger] res@[j]@ == parts@[j]@,
        decreases parts@.len() - i,
    {
        res.push(parts[i].to_owned());
        i = i + 1;
    }
    res
}

/// The name of the last component of `path`, or the empty string.
pub open spec fn file_name_or_empty(path: Seq<char>) -> Seq<char> {
    match file_name_of(path) {
        Some(name) => name,
        None => Seq::empty(),
    }
}

/// Where ffmpeg writes before the result is moved to `dest`: a hidden file
/// `.tmp.<file name>` beside `dest`.
pub open spec fn temp_destination_spec(dest: Seq<char>) -> Seq<char> {
    path_with_file_name(dest, ".tmp."@ + file_name_or_empty(dest))
}

/// The temporary file that a conversion into `dest` writes first.
pub fn temp_destination(dest: &str) -> (tmp: String)
    ensures
        tmp@ == temp_destination_spec(dest@),
{
    let name = match file_name(dest) {
        Some(n) => n,
        None => String::new(),
    };
    let mut hidden = ".tmp.".to_owned();
    hidden.append(name.as_str());
    with_file_name(dest, hidden.as_str())
}

/// One ffmpeg run: its arguments and the temporary file it writes.
pub struct Conversion {
    pub args: Vec<String>,
    pub tmp: String,
}

/// The arguments of the ffmpeg run that converts `source` into `tmp_dest`,
/// keeping the source's metadata and dropping any video stream:
/// `-i source -map_metadata 0 -vn -c:a codec flag value -y tmp_dest`.
pub open spec fn metadata_preserving_args_spec(format: Format, priority: ConversionPriority, source: Seq<char>, tmp_dest: Seq<char>) -> Seq<Seq<char>> {
    let (codec, flag, value) = codec_settings_spec(format, priority);
    seq!["-i"@, source, "-map_metadata"@, "0"@, "-vn"@, "-c:a"@, codec, flag, value, "-y"@, tmp_dest]
}

/// The conversion of `source` into `dest` in the configured format, keeping
/// the source's metadata; ffmpeg writes the temporary file first.
pub fn convert_song(config: &SyncConfig, source: &str, dest: &str) -> (conv: Conversion)
    requires
        config.format is Some,
    ensures
        conv.tmp@ == temp_destination_spec(dest@),
        string_views(conv.args@) == metadata_preserving_args_spec(config.format->0, config.priority, source@, conv.tmp@),
{
    let format = config.format.unwrap();
    let tmp = temp_destination(dest);
    let (codec, flag, value) = codec_settings(format, config.priority);
    let args = owned_strings(&[
        "-i", source, "-map_metadata", "0", "-vn", "-c:a", codec, flag, value, "-y", tmp.as_str(),
    ]);
    assert(string_views(args@) =~= metadata_preserving_args_spec(format, config.priority, source@, tmp@));
    Conversion { args, tmp }
}

} // verus!
