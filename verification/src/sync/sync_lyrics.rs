//! Planning the transfer of the lyric files that accompany songs.
use vstd::prelude::*;

use crate::models::{Song, SyncConfig};
use crate::paths::{
    free_of_separators, join, parent, path_join, path_parent, path_with_extension, with_extension,
};
use crate::sync::sync_music::{relative_song_path, relative_song_path_spec};

verus! {

/// The source and destination paths of a song, whose lyric files sit beside
/// them.
pub struct SongPaths {
    pub source: String,
    pub dest: String,
}

/// Computes where a song and its lyric files are read from and written to:
/// its path relative to the music directory (taken off by whole
/// components, as for the songs) under the local and the destination
/// directories.
pub fn lyric_song_paths(config: &SyncConfig, song: &Song) -> (paths: SongPaths)
    ensures
        paths.source@ == path_join(config.local_dir@, relative_song_path_spec(song.path@, config.navidrome_dir@)),
        paths.dest@ == path_join(config.dest_dir@, relative_song_path_spec(song.path@, config.navidrome_dir@)),
{
    let rel = relative_song_path(song.path.as_str(), config.navidrome_dir.as_str());
    SongPaths {
        source: join(config.local_dir.as_str(), rel.as_str()),
        dest: join(config.dest_dir.as_str(), rel.as_str()),
    }
}

/// One lyric file to copy, when it exists: from `from` to `to`, after
/// creating `dir` when there is one.
pub struct LyricTransfer {
    pub from: String,
    pub to: String,
    pub dir: Option<String>,
}

/// The lyric file of a song with extension `ext`, copied beside the song's
/// destination.
pub open spec fn lyric_transfer_spec(song_src: Seq<char>, song_dst: Seq<char>, ext: Seq<char>, t: LyricTransfer) -> bool {
    &&& t.from@ == path_with_extension(song_src, ext)
    &&& t.to@ == path_with_extension(song_dst, ext)
    &&& match t.dir {
        Some(d) => path_parent(t.to@) == Some(d@),
        None => path_parent(t.to@) is None,
    }
}

/// One lyric transfer for extension `ext`.
fn lyric_transfer(song_src: &str, song_dst: &str, ext: &str) -> (t: LyricTransfer)
    requires
        free_of_separators(ext@),
    ensures
        lyric_transfer_spec(song_src@, song_dst@, ext@, t),
{
    let from = with_extension(song_src, ext);
    let to = with_extension(song_dst, ext);
    let dir = parent(to.as_str());
    LyricTransfer { from, to, dir }
}

/// The lyric files that accompany the song at `original_song_path`, in the
/// order they are tried: the `.lrc` file, then the `.txt` file, each to be
/// copied, when it exists, beside `dest_song_path`.
pub fn transfer_lyric_file(original_song_path: &str, dest_song_path: &str) -> (res: Vec<LyricTransfer>)
    ensures
        res@.len() == 2,
        lyric_transfer_spec(original_song_path@, dest_song_path@, "lrc"@, res@[0]),
        lyric_transfer_spec(original_song_path@, dest_song_path@, "txt"@, res@[1]),
{
    proof {
        reveal_strlit("lrc");
        reveal_strlit("txt");
        assert(free_of_separators("lrc"@));
        assert(free_of_separators("txt"@));
    }
    let mut res: Vec<LyricTransfer> = Vec::new();
    res.push(lyric_transfer(original_song_path, dest_song_path, "lrc"));
    res.push(lyric_transfer(original_song_path, dest_song_path, "txt"));
    res
}

} // verus!
