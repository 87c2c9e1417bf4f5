//! Building the track catalog from enumerated files.
//!
//! Directory walking and tag reading are outside collaborators: they hand in
//! one `FileMeta` per enumerated file.  The catalog logic itself — which
//! files are retained (a fixed extension allow-list) and how metadata falls
//! back when a file carries no readable tag — is verified here.

use vstd::prelude::*;

use crate::song::Song;

verus! {

/// Metadata read from a file's primary tag; absent fields fall back to a
/// sentinel.
pub struct TagMeta {
    pub title: Option<String>,
    pub artist: Option<String>,
    pub album: Option<String>,
    pub genre: Option<String>,
}

/// One enumerated file: its path, name and extension, the tag the reader
/// found (if any), and its duration in whole seconds.
pub struct FileMeta {
    pub file_path: String,
    pub file_name: String,
    pub extension: String,
    pub tag: Option<TagMeta>,
    pub duration: u64,
}

/// The fixed allow-list of audio file extensions.
pub open spec fn is_audio_ext(e: Seq<char>) -> bool {
    ||| e == "flac"@
    ||| e == "m4a"@
    ||| e == "mp3"@
    ||| e == "wav"@
    ||| e == "ogg"@
    ||| e == "opus"@
    ||| e == "m4p"@
    ||| e == "aiff"@
    ||| e == "3gp"@
    ||| e == "aac"@
}

/// Whether `ext` is on the audio extension allow-list.
pub fn is_audio_extension(ext: &String) -> (b: bool)
    ensures
        b == is_audio_ext(ext@),
{
    *ext == "flac".to_owned() || *ext == "m4a".to_owned() || *ext == "mp3".to_owned() || *ext
        == "wav".to_owned() || *ext == "ogg".to_owned() || *ext == "opus".to_owned() || *ext
        == "m4p".to_owned() || *ext == "aiff".to_owned() || *ext == "3gp".to_owned() || *ext
        == "aac".to_owned()
}

/// The enumerated files that the catalog retains: those with an allow-listed
/// extension, in enumeration order.
pub open spec fn audio_files(s: Seq<FileMeta>) -> Seq<FileMeta>
    decreases s.len(),
{
    if s.len() == 0 {
        Seq::empty()
    } else {
        (if is_audio_ext(s[0].extension@) {
            seq![s[0]]
        } else {
            Seq::empty()
        }) + audio_files(s.drop_first())
    }
}

/// How a catalog song relates to the file it was built from: path, name,
/// type and duration are taken over; a song is born valid; each text field
/// comes from the tag when the tag has it, and otherwise falls back — the
/// title to the file name when there is no tag at all, everything else to
/// the sentinel "N/A".
pub open spec fn song_matches(f: FileMeta, s: Song) -> bool {
    &&& s.file_path == f.file_path
    &&& s.file_name == f.file_name
    &&& s.file_type == f.extension
    &&& s.is_valid == true
    &&& s.duration == f.duration
    &&& match f.tag {
        Some(t) => {
            &&& (match t.title {
                Some(x) => s.title == x,
                None => s.title@ == "N/A"@,
            })
            &&& (match t.artist {
                Some(x) => s.artist == x,
                None => s.artist@ == "N/A"@,
            })
            &&& (match t.album {
                Some(x) => s.album == x,
                None => s.album@ == "N/A"@,
            })
            &&& (match t.genre {
                Some(x) => s.genre == x,
                None => s.genre@ == "N/A"@,
            })
        },
        None => {
            &&& s.title == f.file_name
            &&& s.artist@ == "N/A"@
            &&& s.album@ == "N/A"@
            &&& s.genre@ == "N/A"@
        },
    }
}

/// Build the catalog from the enumerated files: keep exactly the files with
/// an allow-listed extension, in order, each turned into a `Song` with the
/// metadata fallback of `song_matches`.
pub fn search_directories(files: &Vec<FileMeta>) -> (out: Vec<Song>)
    ensures
        out@.len() == audio_files(files@).len(),
        forall|j: int|
            0 <= j < out@.len() ==> song_matches(audio_files(files@)[j], #[trigger] out@[j]),
{
    let ghost af = audio_files(files@);
    let ghost mut afp: Seq<FileMeta> = Seq::empty();
    let mut out: Vec<Song> = Vec::new();
    let n = files.len();
    let mut i: usize = 0;
    proof {
        assert(files@.skip(0) =~= files@);
        assert(afp + audio_files(files@) =~= af);
    }
    while i < n
        invariant
            n == files@.len(),
            i <= n,
            af == audio_files(files@),
            afp + audio_files(files@.skip(i as int)) == af,
            out@.len() == afp.len(),
            forall|j: int| 0 <= j < out@.len() ==> song_matches(afp[j], #[trigger] out@[j]),
        decreases n - i,
    {
        proof {
            let suffix = files@.skip(i as int);
            assert(suffix[0] == files@[i as int]);
            assert(suffix.drop_first() =~= files@.skip(i as int + 1));
        }
        let f = &files[i];
        if is_audio_extension(&f.extension) {
            let title = match &f.tag {
                Some(t) => match &t.title {
                    Some(x) => x.clone(),
                    None => "N/A".to_owned(),
                },
                None => f.file_name.clone(),
            };
            let artist = match &f.tag {
                Some(t) => match &t.artist {
                    Some(x) => x.clone(),
                    None => "N/A".to_owned(),
                },
                None => "N/A".to_owned(),
            };
            let album = match &f.tag {
                Some(t) => match &t.album {
                    Some(x) => x.clone(),
                    None => "N/A".to_owned(),
                },
                None => "N/A".to_owned(),
            };
            let genre = match &f.tag {
                Some(t) => match &t.genre {
                    Some(x) => x.clone(),
                    None => "N/A".to_owned(),
                },
                None => "N/A".to_owned(),
            };
            let song = Song {
                file_path: f.file_path.clone(),
                file_type: f.extension.clone(),
                file_name: f.file_name.clone(),
                is_valid: true,
                title,
                artist,
                album,
                genre,
                duration: f.duration,
            };
            out.push(song);
            proof {
                let fm = files@[i as int];
                assert(song_matches(fm, out@[out@.len() - 1]));
                let old_afp = afp;
                afp = afp.push(fm);
                assert(audio_files(files@.skip(i as int)) == seq![fm] + audio_files(
                    files@.skip(i as int + 1),
                ));
                assert(afp + audio_files(files@.skip(i as int + 1)) =~= old_afp + audio_files(
                    files@.skip(i as int),
                ));
            }
        } else {
            proof {
                assert(audio_files(files@.skip(i as int)) == audio_files(files@.skip(i as int + 1)));
            }
        }
        i += 1;
    }
    proof {
        assert(files@.skip(n as int).len() == 0);
        assert(afp + audio_files(files@.skip(n as int)) =~= afp);
    }
    out
}

/// The root paths of the sources marked reachable, in configuration order.
pub open spec fn reachable_roots(s: Seq<(String, bool)>) -> Seq<String>
    decreases s.len(),
{
    if s.len() == 0 {
        Seq::empty()
    } else {
        (if s[0].1 {
            seq![s[0].0]
        } else {
            Seq::empty()
        }) + reachable_roots(s.drop_first())
    }
}

/// The roots a scan visits: only sources whose configured path was found
/// reachable at load time take part.
pub fn reachable_sources(sources: &Vec<(String, bool)>) -> (out: Vec<String>)
    ensures
        out@ == reachable_roots(sources@),
{
    let mut out: Vec<String> = Vec::new();
    let n = sources.len();
    let mut i: usize = 0;
    proof {
        assert(sources@.skip(0) =~= sources@);
        assert(out@ + reachable_roots(sources@) =~= reachable_roots(sources@));
    }
    while i < n
        invariant
            n == sources@.len(),
            i <= n,
            out@ + reachable_roots(sources@.skip(i as int)) == reachable_roots(sources@),
        decreases n - i,
    {
        proof {
            let suffix = sources@.skip(i as int);
            assert(suffix[0] == sources@[i as int]);
            assert(suffix.drop_first() =~= sources@.skip(i as int + 1));
        }
        let ghost before = out@;
        if sources[i].1 {
            out.push(sources[i].0.clone());
            proof {
                assert(out@ =~= before + seq![sources@[i as int].0]);
                assert(out@ + reachable_roots(sources@.skip(i as int + 1)) =~= before
                    + reachable_roots(sources@.skip(i as int)));
            }
        } else {
            proof {
                assert(reachable_roots(sources@.skip(i as int)) == reachable_roots(
                    sources@.skip(i as int + 1),
                ));
            }
        }
        i += 1;
    }
    proof {
        assert(sources@.skip(n as int).len() == 0);
        assert(out@ + reachable_roots(sources@.skip(n as int)) =~= out@);
    }
    out
}

} // verus!
