//! The session state machine: one mode-driven state that serializes
//! keyboard input, periodic ticks and background audio progress into a
//! consistent session.
//!
//! The session owns the catalog, the live query, the ranked results with
//! their tail-counted selection index, the playback controller, and the
//! popup state.  Key handling and event application are total functions of
//! the session state; everything an outside collaborator decides (a decoded
//! file, a scanned directory, the sink's remaining count) enters as a plain
//! argument.

use vstd::prelude::*;

use crate::indexer::{audio_files, search_directories, song_matches, FileMeta};
use crate::notify::{push_notification, tick_notifs, tick_notifications, NotifStyle, PopupManual, PopupNotif, NOTIF_DURATION};
use crate::player::{PlaybackController, Transport, MAX_VOLUME};
use crate::search::{rank, results_ok, RankedSong};
use crate::song::{SearchBy, Song};

verus! {

/// The session mode: idle playback, query entry, or result browsing.
#[derive(Clone, Copy, PartialEq, Eq, Structural, Debug)]
pub enum Mode {
    Sitback,
    Search,
    Select,
}

/// A keyboard input, already freed of terminal details.
#[derive(Clone, Copy, PartialEq, Eq, Structural, Debug)]
pub enum KeyInput {
    Esc,
    Enter,
    Backspace,
    AltBackspace,
    Char(char),
    CtrlChar(char),
}

/// An event routed through the session: most are applied directly; a few
/// need an outside collaborator first (a decode attempt, a rescan, the
/// sink's position) and are answered through the dedicated session methods.
#[derive(Clone, Copy, PartialEq, Eq, Structural, Debug)]
pub enum AppEvent {
    Quit,
    Search,
    Select,
    Escape,
    MoveUp,
    MoveDown,
    HelpDesk,
    AddSingle,
    AddAlbum,
    Resume,
    ClearQueue,
    Pause,
    Skip,
    VolumeUp,
    VolumeDown,
    MoveForward,
    MoveBackward,
    RefreshResults,
    RefreshCache,
    InitPopup,
}

/// The session state.
pub struct App {
    /// The outer loop runs while this holds.
    pub running: bool,
    /// Ranked results of the last query, best score first.
    pub search_results: Vec<RankedSong>,
    /// The catalog: every track of the last completed scan.
    pub search_cache: Vec<Song>,
    /// The live query text.
    pub query: String,
    /// Selection offset into the results, counted from their tail.
    pub select_index: usize,
    /// Configured sources, when a configuration was found.
    pub sources: Option<Vec<(String, bool)>>,
    pub mode: Mode,
    /// Which song field queries are matched against.
    pub search_by: SearchBy,
    pub player: PlaybackController,
    /// The modal overlay, when one is open.
    pub popup_manual: Option<PopupManual>,
    /// The stacked notifications.
    pub popup_notif: Vec<PopupNotif>,
    /// Where the configuration file lives, for the help overlay.
    pub config_path: Option<String>,
}

impl App {
    /// Session invariant: the volume is in range and, whenever there are
    /// results, the selection index is inside them.
    pub open spec fn wf(self) -> bool {
        &&& self.player.wf()
        &&& self.search_results@.len() > 0 ==> self.select_index < self.search_results@.len()
    }

    /// A fresh session over already validated sources: idle, empty query,
    /// empty catalog and queue, matching on file paths.
    pub fn init(sources: Option<Vec<(String, bool)>>, config_path: Option<String>) -> (r: App)
        ensures
            r.running == true,
            r.search_results@.len() == 0,
            r.search_cache@.len() == 0,
            r.query@.len() == 0,
            r.select_index == 0,
            r.sources == sources,
            r.mode == Mode::Sitback,
            r.search_by == SearchBy::FilePath,
            r.player.queue@.len() == 0,
            r.player.transport == Transport::Stopped,
            r.player.volume == MAX_VOLUME,
            (r.popup_manual is None),
            r.popup_notif@.len() == 0,
            r.config_path == config_path,
            r.wf(),
    {
        App {
            running: true,
            search_results: Vec::new(),
            search_cache: Vec::new(),
            query: String::new(),
            select_index: 0,
            sources,
            mode: Mode::Sitback,
            search_by: SearchBy::FilePath,
            player: PlaybackController::init(),
            popup_manual: None,
            popup_notif: Vec::new(),
            config_path,
        }
    }

    /// Stop the outer loop.
    pub fn quit(&mut self)
        ensures
            (*final(self) == App { running: false, ..*old(self) }),
    {
        self.running = false;
    }

    /// The track the selection resolves to: counted from the tail, index 0
    /// names the last result, so the selection is
    /// `results[len - 1 - select_index]`.
    pub fn selected_song(&self) -> (r: Option<Song>)
        requires
            self.wf(),
        ensures
            self.search_results@.len() > 0 ==> r == Some(
                self.search_results@[self.search_results@.len() - 1 - self.select_index].song,
            ),
            self.search_results@.len() == 0 ==> (r is None),
    {
        if self.search_results.len() > 0 {
            let pos = self.search_results.len() - 1 - self.select_index;
            Some(self.search_results[pos].song.clone())
        } else {
            None
        }
    }
}

/// Fields a query-clearing cancel leaves alone.
pub open spec fn same_but_search(a: App, b: App) -> bool {
    &&& b.running == a.running
    &&& b.search_cache == a.search_cache
    &&& b.sources == a.sources
    &&& b.search_by == a.search_by
    &&& b.player == a.player
    &&& b.popup_manual == a.popup_manual
    &&& b.popup_notif == a.popup_notif
    &&& b.config_path == a.config_path
}

/// What a cancel does: it dismisses an open overlay and otherwise pops one
/// mode level — browsing falls back to query entry; query entry falls back
/// to idle with the query and the results cleared; idle stays idle.
pub open spec fn escape_ok(pre: App, post: App) -> bool {
    if pre.popup_manual is Some {
        post == App { popup_manual: Option::<PopupManual>::None, ..pre }
    } else if pre.mode == Mode::Select {
        post == App { mode: Mode::Search, ..pre }
    } else if pre.mode == Mode::Search {
        &&& same_but_search(pre, post)
        &&& post.mode == Mode::Sitback
        &&& post.query@ == Seq::<char>::empty()
        &&& post.search_results@ == Seq::<RankedSong>::empty()
        &&& post.select_index == 0
    } else {
        post == pre
    }
}

/// What a confirm in query entry does: with results present it enters
/// browsing with the selection on the tail (the best-visible, last-rendered
/// row); otherwise nothing.
pub open spec fn select_ok(pre: App, post: App) -> bool {
    if pre.search_results@.len() > 0 && pre.mode == Mode::Search {
        post == App {
            mode: Mode::Select,
            select_index: (pre.search_results@.len() - 1) as usize,
            ..pre
        }
    } else {
        post == pre
    }
}

/// Selection moves one step toward the head of the result list (rendered
/// upward), clamped at the last valid index.
pub open spec fn move_up_ok(pre: App, post: App) -> bool {
    if pre.search_results@.len() > 0 && (pre.select_index as int) < pre.search_results@.len() - 1 {
        post == App { select_index: (pre.select_index + 1) as usize, ..pre }
    } else {
        post == pre
    }
}

/// Selection moves one step toward the tail of the result list (rendered
/// downward), clamped at zero.
pub open spec fn move_down_ok(pre: App, post: App) -> bool {
    if pre.search_results@.len() > 0 && pre.select_index > 0 {
        post == App { select_index: (pre.select_index - 1) as usize, ..pre }
    } else {
        post == pre
    }
}

impl App {
    /// Enter query entry mode.
    pub fn search(&mut self)
        ensures
            (*final(self) == App { mode: Mode::Search, ..*old(self) }),
    {
        self.mode = Mode::Search;
    }

    /// Confirm the query: enter browsing when there is anything to browse.
    pub fn select(&mut self)
        ensures
            select_ok(*old(self), *final(self)),
            old(self).wf() ==> final(self).wf(),
    {
        if self.search_results.len() > 0 && self.mode == Mode::Search {
            self.mode = Mode::Select;
            self.select_index = self.search_results.len() - 1;
        }
    }

    /// Cancel: dismiss the overlay, or pop one mode level.
    pub fn escape(&mut self)
        ensures
            escape_ok(*old(self), *final(self)),
            old(self).wf() ==> final(self).wf(),
    {
        if self.popup_manual.is_some() {
            self.popup_manual = None;
        } else if self.mode == Mode::Select {
            self.mode = Mode::Search;
        } else if self.mode == Mode::Search {
            self.mode = Mode::Sitback;
            self.query = String::new();
            self.search_results = Vec::new();
            self.select_index = 0;
        }
    }

    /// Move the selection one step up, clamped to the results.
    pub fn move_up(&mut self)
        requires
            old(self).wf(),
        ensures
            move_up_ok(*old(self), *final(self)),
            final(self).wf(),
    {
        if self.search_results.len() > 0 && self.select_index < self.search_results.len() - 1 {
            self.select_index = self.select_index + 1;
        }
    }

    /// Move the selection one step down, clamped at zero.
    pub fn move_down(&mut self)
        requires
            old(self).wf(),
        ensures
            move_down_ok(*old(self), *final(self)),
            final(self).wf(),
    {
        if self.search_results.len() > 0 && self.select_index > 0 {
            self.select_index = self.select_index - 1;
        }
    }
}

/// Fields that opening or dismissing an overlay leaves alone.
pub open spec fn same_but_popup(a: App, b: App) -> bool {
    &&& b.running == a.running
    &&& b.search_results == a.search_results
    &&& b.search_cache == a.search_cache
    &&& b.query == a.query
    &&& b.select_index == a.select_index
    &&& b.sources == a.sources
    &&& b.mode == a.mode
    &&& b.search_by == a.search_by
    &&& b.player == a.player
    &&& b.popup_notif == a.popup_notif
    &&& b.config_path == a.config_path
}

/// The help overlay's contents: with sources configured, one header line
/// and one line per source, reachable ones green and unreachable ones red,
/// under a white border; with none, a red-bordered hint naming the
/// configuration file's place when it is known.
pub open spec fn help_popup_ok(pre: App, pm: PopupManual) -> bool {
    &&& pm.title@ == "Help desk"@
    &&& pm.bottom_hint@ == "Press <Esc> to close the window"@
    &&& match pre.sources {
        Some(srcs) => {
            &&& pm.border_color == NotifStyle::White
            &&& pm.message@.len() == srcs@.len() + 1
            &&& pm.message@[0].0@ == "Sources:"@
            &&& pm.message@[0].1 == NotifStyle::White
            &&& forall|i: int|
                0 <= i < srcs@.len() ==> (#[trigger] pm.message@[i + 1]).0 == srcs@[i].0
                    && pm.message@[i + 1].1 == (if srcs@[i].1 {
                    NotifStyle::Green
                } else {
                    NotifStyle::Red
                })
        },
        None => {
            &&& pm.border_color == NotifStyle::Red
            &&& pm.message@.len() == (if pre.config_path is Some {
                4int
            } else {
                3int
            })
            &&& pm.message@[0].0@ == "No sources found..."@
            &&& pm.message@[1].0@ == "Add some!"@
            &&& pm.message@[2].0@ == "File location:"@
            &&& forall|i: int| 0 <= i < pm.message@.len() ==> (#[trigger] pm.message@[i]).1
                == NotifStyle::White
            &&& (pre.config_path matches Some(p) ==> pm.message@[3].0 == p)
        },
    }
}

/// The overlay shown while the first scan runs.
pub open spec fn init_popup_ok(pm: PopupManual) -> bool {
    &&& pm.title@ == Seq::<char>::empty()
    &&& pm.border_color == NotifStyle::Blue
    &&& pm.bottom_hint@ == "Press <Esc> to close the window"@
    &&& pm.message@.len() == 1
    &&& pm.message@[0].0@ == "Scanning your directories..."@
    &&& pm.message@[0].1 == NotifStyle::White
}

/// Fields a result refresh leaves alone.
pub open spec fn same_but_results(a: App, b: App) -> bool {
    &&& b.running == a.running
    &&& b.search_cache == a.search_cache
    &&& b.query == a.query
    &&& b.sources == a.sources
    &&& b.mode == a.mode
    &&& b.search_by == a.search_by
    &&& b.player == a.player
    &&& b.popup_manual == a.popup_manual
    &&& b.popup_notif == a.popup_notif
    &&& b.config_path == a.config_path
}

/// What a refresh does: with a non-empty query the results are re-ranked
/// from the catalog and the selection lands on the tail; an empty query
/// changes nothing (the caller clears the results on the edit that emptied
/// the query, without invoking the ranking).
pub open spec fn refresh_ok(pre: App, post: App) -> bool {
    if pre.query@.len() > 0 {
        &&& same_but_results(pre, post)
        &&& results_ok(pre.search_cache@, pre.search_by, pre.query@, post.search_results@)
        &&& post.select_index == (if post.search_results@.len() > 0 {
            post.search_results@.len() - 1
        } else {
            0int
        })
    } else {
        post == pre
    }
}

impl App {
    /// Open the help overlay describing the configured sources.
    pub fn help_desk(&mut self)
        ensures
            (final(self).popup_manual matches Some(pm) && help_popup_ok(*old(self), pm)),
            same_but_popup(*old(self), *final(self)),
            old(self).wf() ==> final(self).wf(),
    {
        let mut message: Vec<(String, NotifStyle)> = Vec::new();
        let border_color: NotifStyle;
        match &self.sources {
            Some(srcs) => {
                border_color = NotifStyle::White;
                message.push(("Sources:".to_owned(), NotifStyle::White));
                let n = srcs.len();
                let mut i: usize = 0;
                while i < n
                    invariant
                        n == srcs@.len(),
                        i <= n,
                        message@.len() == i + 1,
                        message@[0].0@ == "Sources:"@,
                        message@[0].1 == NotifStyle::White,
                        forall|j: int|
                            0 <= j < i ==> (#[trigger] message@[j + 1]).0 == srcs@[j].0
                                && message@[j + 1].1 == (if srcs@[j].1 {
                                NotifStyle::Green
                            } else {
                                NotifStyle::Red
                            }),
                    decreases n - i,
                {
                    let style = if srcs[i].1 {
                        NotifStyle::Green
                    } else {
                        NotifStyle::Red
                    };
                    message.push((srcs[i].0.clone(), style));
                    i += 1;
                }
            },
            None => {
                border_color = NotifStyle::Red;
                message.push(("No sources found...".to_owned(), NotifStyle::White));
                message.push(("Add some!".to_owned(), NotifStyle::White));
                message.push(("File location:".to_owned(), NotifStyle::White));
                match &self.config_path {
                    Some(p) => {
                        message.push((p.clone(), NotifStyle::White));
                    },
                    None => {},
                }
            },
        }
        self.popup_manual = Some(
            PopupManual {
                title: "Help desk".to_owned(),
                message,
                bottom_hint: "Press <Esc> to close the window".to_owned(),
                border_color,
            },
        );
    }

    /// Open the overlay shown while the first scan runs.
    pub fn init_popup(&mut self)
        ensures
            (final(self).popup_manual matches Some(pm) && init_popup_ok(pm)),
            same_but_popup(*old(self), *final(self)),
            old(self).wf() ==> final(self).wf(),
    {
        let mut message: Vec<(String, NotifStyle)> = Vec::new();
        message.push(("Scanning your directories...".to_owned(), NotifStyle::White));
        self.popup_manual = Some(
            PopupManual {
                title: String::new(),
                message,
                bottom_hint: "Press <Esc> to close the window".to_owned(),
                border_color: NotifStyle::Blue,
            },
        );
    }

    /// Re-rank the catalog against the live query and put the selection on
    /// the tail of the fresh results.  With an empty query this does
    /// nothing.
    pub fn refresh_results(&mut self)
        requires
            old(self).wf(),
        ensures
            refresh_ok(*old(self), *final(self)),
            final(self).wf(),
    {
        if self.query.as_str().is_empty() {
            return ;
        }
        let res = rank(&self.search_cache, &self.query, &self.search_by);
        self.select_index = if res.len() > 0 {
            res.len() - 1
        } else {
            0
        };
        self.search_results = res;
    }

    /// Replace the catalog with a freshly scanned one, atomically: readers
    /// only ever see the old catalog or the new one, never a mixture.
    pub fn refresh_cache(&mut self, files: &Vec<FileMeta>)
        requires
            old(self).wf(),
        ensures
            final(self).search_cache@.len() == audio_files(files@).len(),
            forall|j: int|
                0 <= j < final(self).search_cache@.len() ==> song_matches(
                    audio_files(files@)[j],
                    #[trigger] final(self).search_cache@[j],
                ),
            final(self).running == old(self).running,
            final(self).search_results == old(self).search_results,
            final(self).query == old(self).query,
            final(self).select_index == old(self).select_index,
            final(self).sources == old(self).sources,
            final(self).mode == old(self).mode,
            final(self).search_by == old(self).search_by,
            final(self).player == old(self).player,
            final(self).popup_manual == old(self).popup_manual,
            final(self).popup_notif == old(self).popup_notif,
            final(self).config_path == old(self).config_path,
            final(self).wf(),
    {
        self.search_cache = search_directories(files);
    }

    /// One periodic tick: reconcile the queue with the sink's remaining
    /// count (at most one finished track leaves the queue head), and age
    /// the notification stack.
    pub fn tick(&mut self, sink_remaining: usize)
        requires
            old(self).wf(),
        ensures
            sink_remaining < old(self).player.queue@.len() ==> final(self).player.queue@ == old(
                self,
            ).player.queue@.drop_first(),
            sink_remaining >= old(self).player.queue@.len() ==> final(self).player.queue@ == old(
                self,
            ).player.queue@,
            final(self).player.transport == old(self).player.transport,
            final(self).player.volume == old(self).player.volume,
            final(self).popup_notif@ == tick_notifs(old(self).popup_notif@, 0),
            final(self).running == old(self).running,
            final(self).search_results == old(self).search_results,
            final(self).search_cache == old(self).search_cache,
            final(self).query == old(self).query,
            final(self).select_index == old(self).select_index,
            final(self).sources == old(self).sources,
            final(self).mode == old(self).mode,
            final(self).search_by == old(self).search_by,
            final(self).popup_manual == old(self).popup_manual,
            final(self).config_path == old(self).config_path,
            final(self).wf(),
    {
        self.player.reconcile(sink_remaining);
        let fresh = tick_notifications(&self.popup_notif);
        self.popup_notif = fresh;
    }
}

/// Fields an enqueue leaves alone: everything but the queue itself.
pub open spec fn same_but_queue(a: App, b: App) -> bool {
    &&& b.running == a.running
    &&& b.search_results == a.search_results
    &&& b.search_cache == a.search_cache
    &&& b.query == a.query
    &&& b.select_index == a.select_index
    &&& b.sources == a.sources
    &&& b.mode == a.mode
    &&& b.search_by == a.search_by
    &&& b.player.transport == a.player.transport
    &&& b.player.volume == a.player.volume
    &&& b.popup_manual == a.popup_manual
    &&& b.popup_notif == a.popup_notif
    &&& b.config_path == a.config_path
}

/// What committing the selected single does: with no results, nothing; with
/// a decodable file, exactly that track joins the queue's tail; otherwise
/// nothing is enqueued and the selected result is marked invalid — never a
/// partial state.
pub open spec fn add_single_ok(pre: App, decode_ok: bool, post: App) -> bool {
    if pre.search_results@.len() == 0 {
        post == pre
    } else {
        let pos = pre.search_results@.len() - 1 - pre.select_index;
        if decode_ok {
            &&& same_but_queue(pre, post)
            &&& post.player.queue@ == pre.player.queue@.push(pre.search_results@[pos].song)
        } else {
            &&& same_but_results(pre, post)
            &&& post.select_index == pre.select_index
            &&& post.search_results@ == pre.search_results@.update(
                pos,
                RankedSong {
                    song: Song { is_valid: false, ..pre.search_results@[pos].song },
                    ..pre.search_results@[pos]
                },
            )
        }
    }
}

impl App {
    /// Commit the selected track to the queue when its file decoded; on
    /// failure mark the selected result invalid instead.  The caller makes
    /// the decode attempt on the path `selected_song` names and hands in
    /// the outcome.
    pub fn add_single(&mut self, decode_ok: bool)
        requires
            old(self).wf(),
        ensures
            add_single_ok(*old(self), decode_ok, *final(self)),
            final(self).wf(),
    {
        if self.search_results.len() == 0 {
            return ;
        }
        let pos = self.search_results.len() - 1 - self.select_index;
        if decode_ok {
            let song = self.search_results[pos].song.clone();
            let _enqueued = self.player.enqueue_single(song, true);
        } else {
            let ghost s0 = self.search_results@;
            let mut e = self.search_results.remove(pos);
            e.song.is_valid = false;
            self.search_results.insert(pos, e);
            proof {
                assert(self.search_results@ =~= s0.update(
                    pos as int,
                    RankedSong {
                        song: Song { is_valid: false, ..s0[pos as int].song },
                        ..s0[pos as int]
                    },
                ));
            }
        }
    }
}

/// The tracks an album enqueue commits: the catalog songs sharing the
/// selected album whose files decoded, in catalog order.
pub open spec fn enqueued_album(cat: Seq<Song>, album: Seq<char>, oks: Seq<bool>) -> Seq<Song>
    decreases cat.len(),
{
    if cat.len() == 0 {
        Seq::empty()
    } else {
        (if cat[0].album@ == album && oks[0] {
            seq![cat[0]]
        } else {
            Seq::empty()
        }) + enqueued_album(cat.drop_first(), album, oks.drop_first())
    }
}

/// How an album enqueue leaves the catalog: members whose files did not
/// decode are marked invalid, everything else is untouched.
pub open spec fn marked_cache_ok(
    cat: Seq<Song>,
    album: Seq<char>,
    oks: Seq<bool>,
    post: Seq<Song>,
) -> bool {
    &&& post.len() == cat.len()
    &&& forall|i: int|
        0 <= i < cat.len() ==> #[trigger] post[i] == (if cat[i].album@ == album && !oks[i] {
            Song { is_valid: false, ..cat[i] }
        } else {
            cat[i]
        })
}

/// What an album enqueue does: album membership is decided by the catalog's
/// album field — never by directory layout — and every member with a
/// decodable file joins the queue in catalog order, while unreadable
/// members are only marked invalid, without stopping the rest.  One
/// notification is stacked.
pub open spec fn add_album_ok(pre: App, oks: Seq<bool>, post: App) -> bool {
    &&& post.popup_notif@.len() == pre.popup_notif@.len() + 1
    &&& post.popup_notif@.take(pre.popup_notif@.len() as int) == pre.popup_notif@
    &&& post.popup_notif@.last().message@ == "Added album to the queue"@
    &&& post.popup_notif@.last().style == NotifStyle::Green
    &&& post.popup_notif@.last().ttl_ticks == NOTIF_DURATION
    &&& post.popup_notif@.last().stack_index == pre.popup_notif@.len() + 1
    &&& post.running == pre.running
    &&& post.search_results == pre.search_results
    &&& post.query == pre.query
    &&& post.select_index == pre.select_index
    &&& post.sources == pre.sources
    &&& post.mode == pre.mode
    &&& post.search_by == pre.search_by
    &&& post.popup_manual == pre.popup_manual
    &&& post.config_path == pre.config_path
    &&& post.player.transport == pre.player.transport
    &&& post.player.volume == pre.player.volume
    &&& if pre.search_results@.len() == 0 {
        &&& post.search_cache == pre.search_cache
        &&& post.player.queue == pre.player.queue
    } else {
        let album =
            pre.search_results@[pre.search_results@.len() - 1 - pre.select_index].song.album@;
        &&& marked_cache_ok(pre.search_cache@, album, oks, post.search_cache@)
        &&& post.player.queue@ == pre.player.queue@ + enqueued_album(
            pre.search_cache@,
            album,
            oks,
        )
    }
}

impl App {
    /// Commit the selected track's whole album: every catalog song with the
    /// same album value, wherever its file lives.  The caller attempts a
    /// decode per catalog entry (entries of other albums are never
    /// consulted) and hands in the outcomes; members that failed are marked
    /// invalid without blocking the others.
    pub fn add_album(&mut self, decode_ok: &Vec<bool>)
        requires
            old(self).wf(),
            decode_ok@.len() == old(self).search_cache@.len(),
            old(self).popup_notif@.len() < usize::MAX,
        ensures
            add_album_ok(*old(self), decode_ok@, *final(self)),
            final(self).wf(),
    {
        let ghost pre = *old(self);
        if self.search_results.len() > 0 {
            let pos = self.search_results.len() - 1 - self.select_index;
            let album = self.search_results[pos].song.album.clone();
            let ghost alb = album@;
            let ghost cat0 = self.search_cache@;
            let ghost q0 = self.player.queue@;
            let ghost oks = decode_ok@;
            let ghost mut acc: Seq<Song> = Seq::empty();
            let n = self.search_cache.len();
            let mut i: usize = 0;
            proof {
                assert(cat0.skip(0) =~= cat0);
                assert(oks.skip(0) =~= oks);
                assert(acc + enqueued_album(cat0, alb, oks) =~= enqueued_album(cat0, alb, oks));
                assert(q0 + acc =~= q0);
            }
            while i < n
                invariant
                    n == cat0.len(),
                    i <= n,
                    oks == decode_ok@,
                    oks.len() == n,
                    self.search_cache@.len() == n,
                    alb == album@,
                    forall|j: int|
                        0 <= j < i ==> #[trigger] self.search_cache@[j] == (if cat0[j].album@
                            == alb && !oks[j] {
                            Song { is_valid: false, ..cat0[j] }
                        } else {
                            cat0[j]
                        }),
                    forall|j: int| i <= j < n ==> #[trigger] self.search_cache@[j] == cat0[j],
                    self.player.queue@ == q0 + acc,
                    enqueued_album(cat0, alb, oks) == acc + enqueued_album(
                        cat0.skip(i as int),
                        alb,
                        oks.skip(i as int),
                    ),
                    self.player.transport == pre.player.transport,
                    self.player.volume == pre.player.volume,
                    self.running == pre.running,
                    self.search_results == pre.search_results,
                    self.query == pre.query,
                    self.select_index == pre.select_index,
                    self.sources == pre.sources,
                    self.mode == pre.mode,
                    self.search_by == pre.search_by,
                    self.popup_manual == pre.popup_manual,
                    self.popup_notif == pre.popup_notif,
                    self.config_path == pre.config_path,
                decreases n - i,
            {
                proof {
                    let sc = cat0.skip(i as int);
                    let so = oks.skip(i as int);
                    assert(sc[0] == cat0[i as int]);
                    assert(so[0] == oks[i as int]);
                    assert(sc.drop_first() =~= cat0.skip(i as int + 1));
                    assert(so.drop_first() =~= oks.skip(i as int + 1));
                }
                let ghost acc0 = acc;
                if self.search_cache[i].album == album {
                    if decode_ok[i] {
                        let song = self.search_cache[i].clone();
                        let _enqueued = self.player.enqueue_single(song, true);
                        proof {
                            acc = acc.push(cat0[i as int]);
                            assert(self.player.queue@ =~= q0 + acc);
                            assert(enqueued_album(cat0.skip(i as int), alb, oks.skip(i as int))
                                == seq![cat0[i as int]] + enqueued_album(
                                cat0.skip(i as int + 1),
                                alb,
                                oks.skip(i as int + 1),
                            ));
                            assert(acc + enqueued_album(
                                cat0.skip(i as int + 1),
                                alb,
                                oks.skip(i as int + 1),
                            ) =~= acc0 + enqueued_album(cat0.skip(i as int), alb, oks.skip(i as int)));
                        }
                    } else {
                        let ghost c0 = self.search_cache@;
                        let mut e = self.search_cache.remove(i);
                        e.is_valid = false;
                        self.search_cache.insert(i, e);
                        proof {
                            assert(self.search_cache@ =~= c0.update(
                                i as int,
                                Song { is_valid: false, ..cat0[i as int] },
                            ));
                            assert(enqueued_album(cat0.skip(i as int), alb, oks.skip(i as int))
                                == enqueued_album(
                                cat0.skip(i as int + 1),
                                alb,
                                oks.skip(i as int + 1),
                            ));
                        }
                    }
                } else {
                    proof {
                        assert(enqueued_album(cat0.skip(i as int), alb, oks.skip(i as int))
                            == enqueued_album(cat0.skip(i as int + 1), alb, oks.skip(i as int + 1)));
                    }
                }
                i += 1;
            }
            proof {
                assert(cat0.skip(n as int).len() == 0);
                assert(oks.skip(n as int).len() == 0);
                assert(acc + enqueued_album(cat0.skip(n as int), alb, oks.skip(n as int)) =~= acc);
            }
        }
        let ghost notifs0 = self.popup_notif@;
        push_notification(
            &mut self.popup_notif,
            "Added album to the queue".to_owned(),
            NotifStyle::Green,
        );
        proof {
            assert(self.popup_notif@.take(notifs0.len() as int) =~= notifs0);
        }
    }
}

/// Fields the playback events leave alone: everything but the player.
pub open spec fn same_but_player(a: App, b: App) -> bool {
    &&& b.running == a.running
    &&& b.search_results == a.search_results
    &&& b.search_cache == a.search_cache
    &&& b.query == a.query
    &&& b.select_index == a.select_index
    &&& b.sources == a.sources
    &&& b.mode == a.mode
    &&& b.search_by == a.search_by
    &&& b.popup_manual == a.popup_manual
    &&& b.popup_notif == a.popup_notif
    &&& b.config_path == a.config_path
}

/// Whether an event can be applied from session state alone.  The others
/// first need an outside collaborator — a decode attempt, the sink's
/// position, a directory scan — and are answered through `add_single`,
/// `add_album`, the seek decisions and `refresh_cache`.
pub open spec fn pure_event(ev: AppEvent) -> bool {
    match ev {
        AppEvent::AddSingle => false,
        AppEvent::AddAlbum => false,
        AppEvent::MoveForward => false,
        AppEvent::MoveBackward => false,
        AppEvent::RefreshCache => false,
        _ => true,
    }
}

/// The transition each directly applicable event makes.  Events that need
/// outside data leave the state alone here.
pub open spec fn event_step_ok(pre: App, ev: AppEvent, post: App) -> bool {
    match ev {
        AppEvent::Quit => post == App { running: false, ..pre },
        AppEvent::Search => post == App { mode: Mode::Search, ..pre },
        AppEvent::Select => select_ok(pre, post),
        AppEvent::Escape => escape_ok(pre, post),
        AppEvent::MoveUp => move_up_ok(pre, post),
        AppEvent::MoveDown => move_down_ok(pre, post),
        AppEvent::HelpDesk => (post.popup_manual matches Some(pm) && help_popup_ok(pre, pm))
            && same_but_popup(pre, post),
        AppEvent::Resume => post == App { player: pre.player.play_t(), ..pre },
        AppEvent::ClearQueue => {
            &&& post.player.queue@ == Seq::<Song>::empty()
            &&& post.player.transport == Transport::Stopped
            &&& post.player.volume == pre.player.volume
            &&& same_but_player(pre, post)
        },
        AppEvent::Pause => post == App { player: pre.player.pause_t(), ..pre },
        AppEvent::Skip => post == pre,
        AppEvent::VolumeUp => post == App { player: pre.player.volume_up_t(), ..pre },
        AppEvent::VolumeDown => post == App { player: pre.player.volume_down_t(), ..pre },
        AppEvent::RefreshResults => refresh_ok(pre, post),
        AppEvent::InitPopup => (post.popup_manual matches Some(pm) && init_popup_ok(pm))
            && same_but_popup(pre, post),
        AppEvent::AddSingle => post == pre,
        AppEvent::AddAlbum => post == pre,
        AppEvent::MoveForward => post == pre,
        AppEvent::MoveBackward => post == pre,
        AppEvent::RefreshCache => post == pre,
    }
}

impl App {
    /// Apply one directly applicable event to the session.
    pub fn apply_event(&mut self, ev: &AppEvent)
        requires
            old(self).wf(),
            pure_event(*ev),
        ensures
            event_step_ok(*old(self), *ev, *final(self)),
            final(self).wf(),
    {
        match ev {
            AppEvent::Quit => self.quit(),
            AppEvent::Search => self.search(),
            AppEvent::Select => self.select(),
            AppEvent::Escape => self.escape(),
            AppEvent::MoveUp => self.move_up(),
            AppEvent::MoveDown => self.move_down(),
            AppEvent::HelpDesk => self.help_desk(),
            AppEvent::Resume => self.player.play(),
            AppEvent::ClearQueue => self.player.clear(),
            AppEvent::Pause => self.player.pause(),
            AppEvent::Skip => {},
            AppEvent::VolumeUp => self.player.volume_up(),
            AppEvent::VolumeDown => self.player.volume_down(),
            AppEvent::RefreshResults => self.refresh_results(),
            AppEvent::InitPopup => self.init_popup(),
            AppEvent::AddSingle => {},
            AppEvent::AddAlbum => {},
            AppEvent::MoveForward => {},
            AppEvent::MoveBackward => {},
            AppEvent::RefreshCache => {},
        }
    }
}

/// Relies on String::push: it appends exactly the given character.
#[verifier::external_body]
fn string_push(s: &mut String, c: char)
    ensures
        final(s)@ == old(s)@.push(c),
{
    s.push(c);
}

/// Relies on String::pop: it removes and returns the last character, with
/// `None` exactly on an empty string.
#[verifier::external_body]
fn string_pop(s: &mut String) -> (r: Option<char>)
    ensures
        old(s)@.len() == 0 ==> final(s)@ == old(s)@ && (r is None),
        old(s)@.len() > 0 ==> final(s)@ == old(s)@.drop_last() && r == Some(old(s)@.last()),
{
    s.pop()
}

/// Fields a query edit leaves alone.
pub open spec fn same_but_query(a: App, b: App) -> bool {
    &&& b.running == a.running
    &&& b.search_results == a.search_results
    &&& b.search_cache == a.search_cache
    &&& b.select_index == a.select_index
    &&& b.sources == a.sources
    &&& b.mode == a.mode
    &&& b.search_by == a.search_by
    &&& b.player == a.player
    &&& b.popup_manual == a.popup_manual
    &&& b.popup_notif == a.popup_notif
    &&& b.config_path == a.config_path
}

/// Fields a notification push leaves alone.
pub open spec fn same_but_notifs(a: App, b: App) -> bool {
    &&& b.running == a.running
    &&& b.search_results == a.search_results
    &&& b.search_cache == a.search_cache
    &&& b.query == a.query
    &&& b.select_index == a.select_index
    &&& b.sources == a.sources
    &&& b.mode == a.mode
    &&& b.search_by == a.search_by
    &&& b.player == a.player
    &&& b.popup_manual == a.popup_manual
    &&& b.config_path == a.config_path
}

/// What a command-context character does (any mode but query entry, no
/// overlay open): movement and transport keys emit their events, digits
/// retarget the match field and re-rank, and the clear key clears the
/// queue and stacks a notification.
pub open spec fn command_key_ok(pre: App, c: char, post: App, evs: Seq<AppEvent>) -> bool {
    if c == 'j' {
        post == pre && evs == (if pre.mode == Mode::Select {
            seq![AppEvent::MoveDown]
        } else {
            Seq::<AppEvent>::empty()
        })
    } else if c == 'k' {
        post == pre && evs == (if pre.mode == Mode::Select {
            seq![AppEvent::MoveUp]
        } else {
            Seq::<AppEvent>::empty()
        })
    } else if c == 'q' {
        post == pre && evs == seq![AppEvent::Quit]
    } else if c == 'p' {
        post == pre && evs == (if pre.mode == Mode::Sitback {
            if pre.player.transport == Transport::Paused {
                seq![AppEvent::Resume]
            } else {
                seq![AppEvent::Pause]
            }
        } else {
            Seq::<AppEvent>::empty()
        })
    } else if c == 's' {
        post == pre && evs == seq![AppEvent::Skip]
    } else if c == 'a' {
        post == pre && evs == (if pre.mode == Mode::Select {
            seq![AppEvent::AddAlbum, AppEvent::Resume]
        } else {
            Seq::<AppEvent>::empty()
        })
    } else if c == 'v' {
        post == pre && evs == seq![AppEvent::VolumeDown]
    } else if c == 'h' {
        post == pre && evs == seq![AppEvent::MoveBackward]
    } else if c == 'l' {
        post == pre && evs == seq![AppEvent::MoveForward]
    } else if c == 'V' {
        post == pre && evs == seq![AppEvent::VolumeUp]
    } else if c == ':' {
        post == pre && evs == seq![AppEvent::HelpDesk]
    } else if c == '1' {
        post == App { search_by: SearchBy::FilePath, ..pre } && evs == seq![
            AppEvent::RefreshResults,
        ]
    } else if c == '2' {
        post == App { search_by: SearchBy::Title, ..pre } && evs == seq![AppEvent::RefreshResults]
    } else if c == '3' {
        post == App { search_by: SearchBy::Artist, ..pre } && evs == seq![AppEvent::RefreshResults]
    } else if c == '4' {
        post == App { search_by: SearchBy::Album, ..pre } && evs == seq![AppEvent::RefreshResults]
    } else if c == '5' {
        post == App { search_by: SearchBy::Genre, ..pre } && evs == seq![AppEvent::RefreshResults]
    } else if c == 'c' || c == 'C' {
        &&& same_but_notifs(pre, post)
        &&& post.popup_notif@.len() == pre.popup_notif@.len() + 1
        &&& post.popup_notif@.take(pre.popup_notif@.len() as int) == pre.popup_notif@
        &&& post.popup_notif@.last().message@ == "Cleared the queue"@
        &&& post.popup_notif@.last().style == NotifStyle::Yellow
        &&& post.popup_notif@.last().ttl_ticks == NOTIF_DURATION
        &&& post.popup_notif@.last().stack_index == pre.popup_notif@.len() + 1
        &&& evs == seq![AppEvent::ClearQueue]
    } else if c == '/' {
        post == pre && evs == seq![AppEvent::Search]
    } else {
        post == pre && evs == Seq::<AppEvent>::empty()
    }
}

/// The whole key step: with an overlay open only its dismissal gets
/// through; in query entry keys edit the query (an edit that leaves text
/// re-ranks, one that empties it drops the results without ranking); in
/// any other mode keys act as commands.
pub open spec fn key_step_ok(pre: App, key: KeyInput, post: App, evs: Seq<AppEvent>) -> bool {
    if pre.popup_manual is Some {
        match key {
            KeyInput::Esc => post == pre && evs == seq![AppEvent::Escape],
            _ => post == pre && evs == Seq::<AppEvent>::empty(),
        }
    } else if pre.mode == Mode::Search {
        match key {
            KeyInput::Esc => post == pre && evs == seq![AppEvent::Escape],
            KeyInput::Enter => post == pre && evs == seq![AppEvent::Select],
            KeyInput::Char(c) => {
                &&& same_but_query(pre, post)
                &&& post.query@ == pre.query@.push(c)
                &&& evs == seq![AppEvent::RefreshResults]
            },
            KeyInput::CtrlChar(c) => {
                &&& same_but_query(pre, post)
                &&& post.query@ == pre.query@.push(c)
                &&& evs == seq![AppEvent::RefreshResults]
            },
            KeyInput::Backspace => {
                if pre.query@.len() > 1 {
                    &&& same_but_query(pre, post)
                    &&& post.query@ == pre.query@.drop_last()
                    &&& evs == seq![AppEvent::RefreshResults]
                } else {
                    &&& same_but_search(pre, post)
                    &&& post.mode == pre.mode
                    &&& post.select_index == pre.select_index
                    &&& post.query@ == Seq::<char>::empty()
                    &&& post.search_results@ == Seq::<RankedSong>::empty()
                    &&& evs == Seq::<AppEvent>::empty()
                }
            },
            KeyInput::AltBackspace => {
                &&& same_but_search(pre, post)
                &&& post.mode == pre.mode
                &&& post.select_index == pre.select_index
                &&& post.query@ == Seq::<char>::empty()
                &&& post.search_results@ == Seq::<RankedSong>::empty()
                &&& evs == Seq::<AppEvent>::empty()
            },
        }
    } else {
        match key {
            KeyInput::Esc => post == pre && evs == seq![AppEvent::Escape],
            KeyInput::Enter => post == pre && evs == (if pre.mode == Mode::Select {
                seq![AppEvent::AddSingle, AppEvent::Resume]
            } else {
                Seq::<AppEvent>::empty()
            }),
            KeyInput::Backspace => post == pre && evs == Seq::<AppEvent>::empty(),
            KeyInput::AltBackspace => post == pre && evs == Seq::<AppEvent>::empty(),
            KeyInput::CtrlChar(c) => post == pre && evs == (if c == 'c' || c == 'C' {
                seq![AppEvent::Quit]
            } else {
                Seq::<AppEvent>::empty()
            }),
            KeyInput::Char(c) => command_key_ok(pre, c, post, evs),
        }
    }
}

impl App {
    /// Handle one key press: edit the query or update the match field as
    /// the mode dictates, and emit the events the key stands for, in order.
    pub fn handle_key_events(&mut self, key: KeyInput) -> (evs: Vec<AppEvent>)
        requires
            old(self).wf(),
            old(self).popup_notif@.len() < usize::MAX,
        ensures
            key_step_ok(*old(self), key, *final(self), evs@),
            final(self).wf(),
    {
        let mut evs: Vec<AppEvent> = Vec::new();
        if self.popup_manual.is_some() {
            match key {
                KeyInput::Esc => {
                    evs.push(AppEvent::Escape);
                    proof {
                        assert(evs@ =~= seq![AppEvent::Escape]);
                    }
                },
                _ => {},
            }
        } else if matches!(self.mode, Mode::Search) {
            match key {
                KeyInput::Esc => {
                    evs.push(AppEvent::Escape);
                    proof {
                        assert(evs@ =~= seq![AppEvent::Escape]);
                    }
                },
                KeyInput::Enter => {
                    evs.push(AppEvent::Select);
                    proof {
                        assert(evs@ =~= seq![AppEvent::Select]);
                    }
                },
                KeyInput::Char(c) => {
                    string_push(&mut self.query, c);
                    evs.push(AppEvent::RefreshResults);
                    proof {
                        assert(evs@ =~= seq![AppEvent::RefreshResults]);
                    }
                },
                KeyInput::CtrlChar(c) => {
                    string_push(&mut self.query, c);
                    evs.push(AppEvent::RefreshResults);
                    proof {
                        assert(evs@ =~= seq![AppEvent::RefreshResults]);
                    }
                },
                KeyInput::Backspace => {
                    let _popped = string_pop(&mut self.query);
                    if !self.query.as_str().is_empty() {
                        evs.push(AppEvent::RefreshResults);
                        proof {
                            assert(evs@ =~= seq![AppEvent::RefreshResults]);
                        }
                    } else {
                        self.search_results = Vec::new();
                        proof {
                            assert(self.query@ =~= Seq::<char>::empty());
                        }
                    }
                },
                KeyInput::AltBackspace => {
                    self.query = String::new();
                    self.search_results = Vec::new();
                },
            }
        } else {
            match key {
                KeyInput::Esc => {
                    evs.push(AppEvent::Escape);
                    proof {
                        assert(evs@ =~= seq![AppEvent::Escape]);
                    }
                },
                KeyInput::Enter => {
                    if matches!(self.mode, Mode::Select) {
                        evs.push(AppEvent::AddSingle);
                        evs.push(AppEvent::Resume);
                        proof {
                            assert(evs@ =~= seq![AppEvent::AddSingle, AppEvent::Resume]);
                        }
                    }
                },
                KeyInput::Backspace => {},
                KeyInput::AltBackspace => {},
                KeyInput::CtrlChar(c) => {
                    if c == 'c' || c == 'C' {
                        evs.push(AppEvent::Quit);
                        proof {
                            assert(evs@ =~= seq![AppEvent::Quit]);
                        }
                    }
                },
                KeyInput::Char(c) => {
                    self.command_key(c, &mut evs);
                },
            }
        }
        proof {
            if evs@.len() == 0 {
                assert(evs@ =~= Seq::<AppEvent>::empty());
            }
        }
        evs
    }

    /// Handle one command-context character.
    fn command_key(&mut self, c: char, evs: &mut Vec<AppEvent>)
        requires
            old(self).wf(),
            old(self).popup_notif@.len() < usize::MAX,
            (old(self).popup_manual is None),
            old(self).mode != Mode::Search,
            old(evs)@.len() == 0,
        ensures
            command_key_ok(*old(self), c, *final(self), final(evs)@),
            final(self).wf(),
    {
        if c == 'j' {
            if matches!(self.mode, Mode::Select) {
                evs.push(AppEvent::MoveDown);
                proof {
                    assert(evs@ =~= seq![AppEvent::MoveDown]);
                }
            }
        } else if c == 'k' {
            if matches!(self.mode, Mode::Select) {
                evs.push(AppEvent::MoveUp);
                proof {
                    assert(evs@ =~= seq![AppEvent::MoveUp]);
                }
            }
        } else if c == 'q' {
            evs.push(AppEvent::Quit);
            proof {
                assert(evs@ =~= seq![AppEvent::Quit]);
            }
        } else if c == 'p' {
            if matches!(self.mode, Mode::Sitback) {
                if matches!(self.player.transport, Transport::Paused) {
                    evs.push(AppEvent::Resume);
                    proof {
                        assert(evs@ =~= seq![AppEvent::Resume]);
                    }
                } else {
                    evs.push(AppEvent::Pause);
                    proof {
                        assert(evs@ =~= seq![AppEvent::Pause]);
                    }
                }
            }
        } else if c == 's' {
            evs.push(AppEvent::Skip);
            proof {
                assert(evs@ =~= seq![AppEvent::Skip]);
            }
        } else if c == 'a' {
            if matches!(self.mode, Mode::Select) {
                evs.push(AppEvent::AddAlbum);
                evs.push(AppEvent::Resume);
                proof {
                    assert(evs@ =~= seq![AppEvent::AddAlbum, AppEvent::Resume]);
                }
            }
        } else if c == 'v' {
            evs.push(AppEvent::VolumeDown);
            proof {
                assert(evs@ =~= seq![AppEvent::VolumeDown]);
            }
        } else if c == 'h' {
            evs.push(AppEvent::MoveBackward);
            proof {
                assert(evs@ =~= seq![AppEvent::MoveBackward]);
            }
        } else if c == 'l' {
            evs.push(AppEvent::MoveForward);
            proof {
                assert(evs@ =~= seq![AppEvent::MoveForward]);
            }
        } else if c == 'V' {
            evs.push(AppEvent::VolumeUp);
            proof {
                assert(evs@ =~= seq![AppEvent::VolumeUp]);
            }
        } else if c == ':' {
            evs.push(AppEvent::HelpDesk);
            proof {
                assert(evs@ =~= seq![AppEvent::HelpDesk]);
            }
        } else if c == '1' {
            self.search_by = SearchBy::FilePath;
            evs.push(AppEvent::RefreshResults);
            proof {
                assert(evs@ =~= seq![AppEvent::RefreshResults]);
            }
        } else if c == '2' {
            self.search_by = SearchBy::Title;
            evs.push(AppEvent::RefreshResults);
            proof {
                assert(evs@ =~= seq![AppEvent::RefreshResults]);
            }
        } else if c == '3' {
            self.search_by = SearchBy::Artist;
            evs.push(AppEvent::RefreshResults);
            proof {
                assert(evs@ =~= seq![AppEvent::RefreshResults]);
            }
        } else if c == '4' {
            self.search_by = SearchBy::Album;
            evs.push(AppEvent::RefreshResults);
            proof {
                assert(evs@ =~= seq![AppEvent::RefreshResults]);
            }
        } else if c == '5' {
            self.search_by = SearchBy::Genre;
            evs.push(AppEvent::RefreshResults);
            proof {
                assert(evs@ =~= seq![AppEvent::RefreshResults]);
            }
        } else if c == 'c' || c == 'C' {
            let ghost notifs0 = self.popup_notif@;
            push_notification(
                &mut self.popup_notif,
                "Cleared the queue".to_owned(),
                NotifStyle::Yellow,
            );
            evs.push(AppEvent::ClearQueue);
            proof {
                assert(self.popup_notif@.take(notifs0.len() as int) =~= notifs0);
                assert(evs@ =~= seq![AppEvent::ClearQueue]);
            }
        } else if c == '/' {
            evs.push(AppEvent::Search);
            proof {
                assert(evs@ =~= seq![AppEvent::Search]);
            }
        }
        proof {
            if evs@.len() == 0 {
                assert(evs@ =~= Seq::<AppEvent>::empty());
            }
        }
    }
}

} // verus!
