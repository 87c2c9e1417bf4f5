//! Scored file entries, score-ordered sorting, and resolution of a selection
//! to a playback queue.
//!
//! Selections count from the *tail* of a result list: selection index 0 names
//! the last element, and a selection resolves to `list[len - 1 - index]`.

use vstd::multiset::Multiset;
use vstd::prelude::*;

use crate::player::SearchCommand;
use crate::song::Song;

verus! {

/// A file entry paired with the fuzzy score it was ranked with.
pub struct SongEntry {
    pub file: String,
    pub score: i64,
}

impl Clone for SongEntry {
    fn clone(&self) -> (r: SongEntry)
        ensures
            r == *self,
    {
        SongEntry { file: self.file.clone(), score: self.score }
    }
}

/// Sort entries by descending score.  The result holds exactly the entries
/// given (as a multiset), highest score first; the insertion keeps equal
/// scores in their given order.
pub fn sort(entries: Vec<SongEntry>) -> (out: Vec<SongEntry>)
    ensures
        out@.to_multiset() == entries@.to_multiset(),
        forall|j: int, k: int|
            0 <= j < k < out@.len() ==> (#[trigger] out@[j]).score >= (#[trigger] out@[k]).score,
{
    let mut out: Vec<SongEntry> = Vec::new();
    let n = entries.len();
    let mut i: usize = 0;
    proof {
        vstd::seq_lib::to_multiset_len(entries@.take(0));
        vstd::multiset::lemma_multiset_empty_len(entries@.take(0).to_multiset());
        vstd::seq_lib::to_multiset_len(Seq::<SongEntry>::empty());
        vstd::multiset::lemma_multiset_empty_len(Seq::<SongEntry>::empty().to_multiset());
        assert(out@ == Seq::<SongEntry>::empty());
        assert(entries@.take(0).to_multiset() =~= Multiset::<SongEntry>::empty());
    }
    while i < n
        invariant
            n == entries@.len(),
            i <= n,
            out@.to_multiset() == entries@.take(i as int).to_multiset(),
            forall|j: int, k: int|
                0 <= j < k < out@.len() ==> (#[trigger] out@[j]).score >= (
                #[trigger] out@[k]).score,
        decreases n - i,
    {
        let e = entries[i].clone();
        let ghost s = out@;
        let mut p: usize = 0;
        while p < out.len() && out[p].score >= e.score
            invariant
                out@ == s,
                p <= s.len(),
                e == entries@[i as int],
                forall|j: int| 0 <= j < p ==> (#[trigger] s[j]).score >= e.score,
            decreases s.len() - p,
        {
            p += 1;
        }
        out.insert(p, e);
        proof {
            let t = out@;
            assert(t == s.insert(p as int, e));
            vstd::seq_lib::to_multiset_insert(s, p as int, e);
            assert(entries@.take(i + 1) =~= entries@.take(i as int).push(e));
            vstd::seq_lib::to_multiset_build(entries@.take(i as int), e);
            assert forall|j: int, k: int| 0 <= j < k < t.len() implies (#[trigger] t[j]).score >= (
            #[trigger] t[k]).score by {
                if k < p {
                    assert(t[j] == s[j] && t[k] == s[k]);
                } else if k == p {
                    assert(t[j] == s[j] && s[j].score >= e.score);
                } else if j == p {
                    assert(t[k] == s[k - 1]);
                    assert(p < s.len() ==> s[p as int].score < e.score);
                } else if j < p {
                    assert(t[j] == s[j] && t[k] == s[k - 1]);
                } else {
                    assert(t[j] == s[j - 1] && t[k] == s[k - 1]);
                }
            }
        }
        i += 1;
    }
    proof {
        assert(entries@.take(n as int) =~= entries@);
    }
    out
}

/// Resolve a tail-counted selection over `s_e_vec`: with a valid index the
/// queue holds exactly the selected entry's file, otherwise nothing is
/// resolved.
pub fn get_song(s_e_vec: &Vec<SongEntry>, index: i32) -> (r: Option<Vec<String>>)
    ensures
        0 <= index && (index as int) < s_e_vec@.len() ==> (r matches Some(q) && q@ == seq![
            s_e_vec@[s_e_vec@.len() - 1 - index].file,
        ]),
        !(0 <= index && (index as int) < s_e_vec@.len()) ==> r is None,
{
    if index >= 0 && (index as usize) < s_e_vec.len() {
        let pos = s_e_vec.len() - 1 - (index as usize);
        let mut queue: Vec<String> = Vec::new();
        queue.push(s_e_vec[pos].file.clone());
        Some(queue)
    } else {
        None
    }
}

/// The file paths of the catalog entries whose album is `album`, in catalog
/// order.
pub open spec fn album_paths(cat: Seq<Song>, album: Seq<char>) -> Seq<String>
    decreases cat.len(),
{
    if cat.len() == 0 {
        Seq::empty()
    } else {
        (if cat[0].album@ == album {
            seq![cat[0].file_path]
        } else {
            Seq::empty()
        }) + album_paths(cat.drop_first(), album)
    }
}

/// Resolve a tail-counted selection to a whole album: with a valid index the
/// queue holds the file paths of every catalog song sharing the selected
/// song's album — album membership is decided by the catalog's metadata, not
/// by directory layout — in catalog order; otherwise nothing is resolved.
pub fn get_album(songs: &Vec<Song>, index: i32) -> (r: Option<Vec<String>>)
    ensures
        0 <= index && (index as int) < songs@.len() ==> (r matches Some(q) && q@ == album_paths(
            songs@,
            songs@[songs@.len() - 1 - index].album@,
        )),
        !(0 <= index && (index as int) < songs@.len()) ==> r is None,
{
    if index >= 0 && (index as usize) < songs.len() {
        let pos = songs.len() - 1 - (index as usize);
        let album = songs[pos].album.clone();
        let ghost alb = album@;
        let mut queue: Vec<String> = Vec::new();
        let n = songs.len();
        let mut i: usize = 0;
        proof {
            assert(songs@.skip(0) =~= songs@);
            assert(queue@ + album_paths(songs@, alb) =~= album_paths(songs@, alb));
        }
        while i < n
            invariant
                n == songs@.len(),
                i <= n,
                alb == album@,
                queue@ + album_paths(songs@.skip(i as int), alb) == album_paths(songs@, alb),
            decreases n - i,
        {
            proof {
                let suffix = songs@.skip(i as int);
                assert(suffix[0] == songs@[i as int]);
                assert(suffix.drop_first() =~= songs@.skip(i as int + 1));
            }
            let ghost before = queue@;
            if songs[i].album == album {
                queue.push(songs[i].file_path.clone());
                proof {
                    assert(queue@ =~= before + seq![songs@[i as int].file_path]);
                    assert(queue@ + album_paths(songs@.skip(i as int + 1), alb) =~= before
                        + album_paths(songs@.skip(i as int), alb));
                }
            } else {
                proof {
                    assert(album_paths(songs@.skip(i as int), alb) == album_paths(
                        songs@.skip(i as int + 1),
                        alb,
                    ));
                }
            }
            i += 1;
        }
        proof {
            assert(songs@.skip(n as int).len() == 0);
            assert(queue@ + album_paths(songs@.skip(n as int), alb) =~= queue@);
        }
        Some(queue)
    } else {
        None
    }
}

/// Resolve a search-mode request against the ranked songs and the
/// tail-counted selection: the selection as a one-track queue, or its whole
/// album.  Showing the results and recomputing them are requests to outside
/// collaborators, so they resolve to no queue here.
pub fn search_cmd(cmd: &SearchCommand, songs: &Vec<Song>, index: i32) -> (r: Option<Vec<String>>)
    ensures
        *cmd == SearchCommand::GetSingle && 0 <= index && (index as int) < songs@.len() ==> (
        r matches Some(q) && q@ == seq![songs@[songs@.len() - 1 - index].file_path]),
        *cmd == SearchCommand::GetSingle && !(0 <= index && (index as int) < songs@.len()) ==> (
        r is None),
        *cmd == SearchCommand::GetAlbum && 0 <= index && (index as int) < songs@.len() ==> (
        r matches Some(q) && q@ == album_paths(
            songs@,
            songs@[songs@.len() - 1 - index].album@,
        )),
        *cmd == SearchCommand::GetAlbum && !(0 <= index && (index as int) < songs@.len()) ==> (
        r is None),
        *cmd == SearchCommand::PrintEntries || *cmd == SearchCommand::SearchResults ==> (
        r is None),
{
    match cmd {
        SearchCommand::GetSingle => {
            if index >= 0 && (index as usize) < songs.len() {
                let pos = songs.len() - 1 - (index as usize);
                let mut queue: Vec<String> = Vec::new();
                queue.push(songs[pos].file_path.clone());
                Some(queue)
            } else {
                None
            }
        },
        SearchCommand::GetAlbum => get_album(songs, index),
        SearchCommand::PrintEntries => None,
        SearchCommand::SearchResults => None,
    }
}

} // verus!
