//! The track catalog's element type and the match-field selector.

use vstd::prelude::*;

verus! {

/// One audio track of the catalog.  Identity is the file path.  All fields are
/// fixed at scan time except `is_valid`, which playback flips to `false` when
/// the file can no longer be opened or decoded.
pub struct Song {
    pub file_path: String,
    pub file_type: String,
    pub file_name: String,
    pub is_valid: bool,
    pub title: String,
    pub artist: String,
    pub album: String,
    pub genre: String,
    /// Track length in whole seconds, as the sink reports positions.
    pub duration: u64,
}

/// Which field of a `Song` a query is matched against.
#[derive(Clone, Copy, PartialEq, Eq, Structural, Debug)]
pub enum SearchBy {
    FilePath,
    Title,
    Artist,
    Album,
    Genre,
}

impl Song {
    /// The characters of the field that `by` selects.
    pub open spec fn field_view(self, by: SearchBy) -> Seq<char> {
        match by {
            SearchBy::FilePath => self.file_path@,
            SearchBy::Title => self.title@,
            SearchBy::Artist => self.artist@,
            SearchBy::Album => self.album@,
            SearchBy::Genre => self.genre@,
        }
    }
}

/// The field of `song` that `by` selects, as the text to be matched.
pub fn song_field<'a>(song: &'a Song, by: &SearchBy) -> (r: &'a String)
    ensures
        r@ == song.field_view(*by),
{
    match by {
        SearchBy::FilePath => &song.file_path,
        SearchBy::Title => &song.title,
        SearchBy::Artist => &song.artist,
        SearchBy::Album => &song.album,
        SearchBy::Genre => &song.genre,
    }
}

/// Split a duration in whole seconds into minutes and leftover seconds,
/// for display.
pub fn format_seconds(seconds: u64) -> (r: (u64, u64))
    ensures
        r.0 == seconds / 60,
        r.1 == seconds % 60,
        r.0 * 60 + r.1 == seconds,
{
    let min = seconds / 60;
    let secs = seconds % 60;
    (min, secs)
}

impl Clone for Song {
    fn clone(&self) -> (r: Song)
        ensures
            r == *self,
    {
        Song {
            file_path: self.file_path.clone(),
            file_type: self.file_type.clone(),
            file_name: self.file_name.clone(),
            is_valid: self.is_valid,
            title: self.title.clone(),
            artist: self.artist.clone(),
            album: self.album.clone(),
            genre: self.genre.clone(),
            duration: self.duration,
        }
    }
}

} // verus!
