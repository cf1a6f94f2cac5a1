//! The data the library works on: the synchronisation settings, the server
//! credentials, the songs that the server reports and the transfer plan of
//! one song. Paths are held as strings.
use vstd::prelude::*;

use crate::paths::free_of_separators;

verus! {

/// The audio format that songs are converted to.
#[derive(Clone, Copy, Debug, PartialEq, Eq, Structural)]
pub enum Format {
    Mp3,
    Opus,
    Ogg,
}

/// What to do when the destination directory already holds a file with the
/// same stem as the song being transferred.
#[derive(Clone, Copy, Debug, PartialEq, Eq, Structural)]
pub enum ConflictStrategy {
    Overwrite,
    Ignore,
}

/// How the encoder trades quality against size.
#[derive(Clone, Copy, Debug, PartialEq, Eq, Structural)]
pub enum ConversionPriority {
    Quality,
    Balance,
    Compression,
}

/// The file extension (without the dot) of a format.
pub open spec fn format_extension(format: Format) -> Seq<char> {
    match format {
        Format::Mp3 => "mp3"@,
        Format::Opus => "opus"@,
        Format::Ogg => "ogg"@,
    }
}

/// A format's extension is a non-empty word without dots or separators.
pub proof fn lemma_format_extension_is_plain(format: Format)
    ensures
        format_extension(format).len() > 0,
        !format_extension(format).contains('.'),
        free_of_separators(format_extension(format)),
{
    reveal_strlit("mp3");
    reveal_strlit("opus");
    reveal_strlit("ogg");
    let e = format_extension(format);
    assert(forall|i: int| 0 <= i < e.len() ==> e[i] != '.' && e[i] != '/' && e[i] != '\\');
}

impl Format {
    /// The file extension of the format: `mp3`, `opus` or `ogg`.
    pub fn as_ref(&self) -> (ext: &'static str)
        ensures
            ext@ == format_extension(*self),
    {
        match *self {
            Format::Mp3 => "mp3",
            Format::Opus => "opus",
            Format::Ogg => "ogg",
        }
    }
}

/// The settings of a synchronisation run.
pub struct SyncConfig {
    /// The music directory as the server sees it.
    pub navidrome_dir: String,
    /// The same directory as this machine sees it.
    pub local_dir: String,
    /// Where the songs are copied to.
    pub dest_dir: String,
    /// The audio format to convert the file to
    pub format: Option<Format>,
    pub on_conflict: ConflictStrategy,
    pub priority: ConversionPriority,
    /// Only these source extensions are converted, when present.
    pub whitelist: Option<Vec<String>>,
    /// These source extensions are never converted, when present.
    pub blacklist: Option<Vec<String>>,
}

/// The credentials of the Subsonic server.
pub struct ApiConfig {
    pub url: String,
    pub user: String,
    pub password: String,
}

/// The whole answer of the `getStarred` endpoint.
pub struct SubsonicResponse {
    pub subsonic_response: SubsonicResponseBody,
}

/// The body of a Subsonic answer.
pub struct SubsonicResponseBody {
    pub status: String,
    pub starred: Option<Starred>,
}

/// The starred items of a Subsonic answer.
pub struct Starred {
    pub song: Option<Vec<Song>>,
}

/// A song as the server reports it.
#[derive(Clone, Debug)]
pub struct Song {
    pub title: String,
    pub artist: String,
    pub path: String,
}

/// A song that is to be transferred, with its source and destination.
#[derive(Clone, Debug)]
pub struct SongToConvert {
    pub title: String,
    pub navidrome_path: String,
    pub src_path: String,
    pub dst_path: String,
}

} // verus!
