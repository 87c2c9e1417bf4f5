//! Playback control: the queue of committed tracks and the controller's
//! model of the audio sink (transport state and volume).
//!
//! The real sink is an outside collaborator; every operation here is the
//! decision half of a sink command.  The caller mirrors each operation onto
//! the device: what is proved is that queue, transport and volume evolve
//! exactly as specified — volume clamped to its range, queue and sink
//! cleared together, the queue head advanced only by tick reconciliation.

use vstd::prelude::*;

use crate::song::Song;

verus! {

/// Volume step of one volume-up or volume-down operation, in percent.
pub const VOLUME_CHANGE: u8 = 5;

/// Full volume, in percent.
pub const MAX_VOLUME: u8 = 100;

/// Seek step of one seek operation, in seconds.
pub const SEEK_CHANGE: u64 = 5;

/// The transport state the controller has commanded the sink into.
#[derive(Clone, Copy, PartialEq, Eq, Structural, Debug)]
pub enum Transport {
    Playing,
    Paused,
    Stopped,
}

/// Session mode of the line-oriented player loop.
#[derive(Clone, Copy, PartialEq, Eq, Structural, Debug)]
pub enum PlayerMode {
    Sitback,
    Select,
    Command,
    Search,
    Bye,
}

/// A transport or session command addressed to the playback controller.
#[derive(Clone, Copy, PartialEq, Eq, Structural, Debug)]
pub enum PlayerCommand {
    Quit,
    Skip,
    ClearQueue,
    TogglePause,
    Stop,
    Help,
    VolumeUp,
    VolumeDown,
    Resume,
}

/// A search-mode request: resolve the selection to an album or a single
/// track, show the result list, or recompute it.
#[derive(Clone, Copy, PartialEq, Eq, Structural, Debug)]
pub enum SearchCommand {
    GetAlbum,
    GetSingle,
    PrintEntries,
    SearchResults,
}

/// Owner of the playback queue and of the sink's commanded state.
pub struct PlaybackController {
    /// Tracks committed to the sink, head first.  Never longer than what the
    /// sink has actually been handed: it grows only when a decoded stream is
    /// appended, and shrinks only by reconciliation against the sink's own
    /// remaining count.
    pub queue: Vec<Song>,
    pub transport: Transport,
    /// Volume in percent, always within `[0, MAX_VOLUME]`.
    pub volume: u8,
}

impl PlaybackController {
    /// The volume never leaves its range.
    pub open spec fn wf(self) -> bool {
        self.volume <= MAX_VOLUME
    }

    /// Transport after a play (resume) command.
    pub open spec fn play_t(self) -> PlaybackController {
        PlaybackController { transport: Transport::Playing, ..self }
    }

    /// Transport after a pause command.
    pub open spec fn pause_t(self) -> PlaybackController {
        PlaybackController { transport: Transport::Paused, ..self }
    }

    /// Transport after a toggle: paused resumes, anything else pauses.
    pub open spec fn toggle_t(self) -> PlaybackController {
        if self.transport == Transport::Paused {
            self.play_t()
        } else {
            self.pause_t()
        }
    }

    /// Volume after one step up, clamped to full volume.
    pub open spec fn volume_up_t(self) -> PlaybackController {
        PlaybackController {
            volume: if self.volume + VOLUME_CHANGE > MAX_VOLUME {
                MAX_VOLUME
            } else {
                (self.volume + VOLUME_CHANGE) as u8
            },
            ..self
        }
    }

    /// Volume after one step down, clamped to silence.
    pub open spec fn volume_down_t(self) -> PlaybackController {
        PlaybackController {
            volume: if self.volume < VOLUME_CHANGE {
                0u8
            } else {
                (self.volume - VOLUME_CHANGE) as u8
            },
            ..self
        }
    }

    /// A fresh controller: empty queue, stopped, full volume.
    pub fn init() -> (r: PlaybackController)
        ensures
            r.queue@ == Seq::<Song>::empty(),
            r.transport == Transport::Stopped,
            r.volume == MAX_VOLUME,
            r.wf(),
    {
        PlaybackController { queue: Vec::new(), transport: Transport::Stopped, volume: MAX_VOLUME }
    }

    /// Resume playback.  Idempotent.
    pub fn play(&mut self)
        ensures
            *final(self) == old(self).play_t(),
    {
        self.transport = Transport::Playing;
    }

    /// Pause playback.  Idempotent.
    pub fn pause(&mut self)
        ensures
            *final(self) == old(self).pause_t(),
    {
        self.transport = Transport::Paused;
    }

    /// Toggle between paused and playing.
    pub fn toggle_pause(&mut self)
        ensures
            *final(self) == old(self).toggle_t(),
    {
        if self.transport == Transport::Paused {
            self.play();
        } else {
            self.pause();
        }
    }

    /// Stop the sink and drop the whole queue, as one step: the queue is
    /// empty exactly when the sink was told to keep nothing.
    pub fn clear(&mut self)
        ensures
            final(self).queue@ == Seq::<Song>::empty(),
            final(self).transport == Transport::Stopped,
            final(self).volume == old(self).volume,
    {
        self.queue = Vec::new();
        self.transport = Transport::Stopped;
    }

    /// One volume step up, clamped to `[0, MAX_VOLUME]`.
    pub fn volume_up(&mut self)
        requires
            old(self).wf(),
        ensures
            *final(self) == old(self).volume_up_t(),
            final(self).wf(),
    {
        if self.volume + VOLUME_CHANGE > MAX_VOLUME {
            self.volume = MAX_VOLUME;
        } else {
            self.volume = self.volume + VOLUME_CHANGE;
        }
    }

    /// One volume step down, clamped to `[0, MAX_VOLUME]`.
    pub fn volume_down(&mut self)
        requires
            old(self).wf(),
        ensures
            *final(self) == old(self).volume_down_t(),
            final(self).wf(),
    {
        if self.volume < VOLUME_CHANGE {
            self.volume = 0;
        } else {
            self.volume = self.volume - VOLUME_CHANGE;
        }
    }

    /// Commit one track: when its file was opened and decoded, the track
    /// joins the tail of the queue; on failure nothing changes — no partial
    /// state is ever observable.
    pub fn enqueue_single(&mut self, song: Song, decode_ok: bool) -> (enqueued: bool)
        ensures
            decode_ok ==> final(self).queue@ == old(self).queue@.push(song) && final(self).transport
                == old(self).transport && final(self).volume == old(self).volume,
            !decode_ok ==> *final(self) == *old(self),
            enqueued == decode_ok,
    {
        if decode_ok {
            self.queue.push(song);
            true
        } else {
            false
        }
    }

    /// Tick-driven reconciliation with the sink: the sink only reports how
    /// many sources it still holds, so whenever that count falls below the
    /// queue's length, exactly one finished track leaves the queue head.
    /// This is the only way "now playing" advances; it is eventually
    /// consistent, one track per tick.
    pub fn reconcile(&mut self, sink_remaining: usize)
        ensures
            sink_remaining < old(self).queue@.len() ==> final(self).queue@ == old(
                self,
            ).queue@.drop_first(),
            sink_remaining >= old(self).queue@.len() ==> final(self).queue@ == old(self).queue@,
            final(self).transport == old(self).transport,
            final(self).volume == old(self).volume,
    {
        if sink_remaining < self.queue.len() {
            self.queue.remove(0);
            proof {
                assert(old(self).queue@.remove(0) =~= old(self).queue@.drop_first());
            }
        }
    }

    /// Target position of a seek forward by one step: defined only while the
    /// queue has a head and the step stays strictly inside the head track.
    pub fn seek_forward(&self, pos: u64) -> (r: Option<u64>)
        ensures
            r == (if self.queue@.len() > 0 && pos + SEEK_CHANGE < self.queue@[0].duration {
                Some((pos + SEEK_CHANGE) as u64)
            } else {
                Option::<u64>::None
            }),
    {
        if self.queue.len() > 0 {
            let d = self.queue[0].duration;
            if pos < d && d - pos > SEEK_CHANGE {
                Some(pos + SEEK_CHANGE)
            } else {
                None
            }
        } else {
            None
        }
    }

    /// Target position of a seek backward by one step: clamped to exactly
    /// zero when the step is at least the elapsed time — never negative,
    /// never wrapped.
    pub fn seek_backward(&self, pos: u64) -> (r: Option<u64>)
        ensures
            r == (if self.queue@.len() > 0 {
                Some(
                    if pos > SEEK_CHANGE {
                        (pos - SEEK_CHANGE) as u64
                    } else {
                        0u64
                    },
                )
            } else {
                Option::<u64>::None
            }),
            self.queue@.len() > 0 && pos <= SEEK_CHANGE ==> r == Some(0u64),
    {
        if self.queue.len() > 0 {
            if pos > SEEK_CHANGE {
                Some(pos - SEEK_CHANGE)
            } else {
                Some(0)
            }
        } else {
            None
        }
    }
}

/// What `audio_cmd` does for each command: `Quit` only reports, `Skip` and
/// `Help` leave the controller alone (a skip is observed later through
/// reconciliation), `ClearQueue` and `Stop` clear queue and sink together,
/// and the rest drive transport and volume.
pub open spec fn audio_cmd_ok(
    pre: PlaybackController,
    pcmd: PlayerCommand,
    post: PlaybackController,
    quit: bool,
) -> bool {
    &&& quit == (pcmd == PlayerCommand::Quit)
    &&& match pcmd {
        PlayerCommand::Quit => post == pre,
        PlayerCommand::Skip => post == pre,
        PlayerCommand::Help => post == pre,
        PlayerCommand::ClearQueue | PlayerCommand::Stop => {
            &&& post.queue@ == Seq::<Song>::empty()
            &&& post.transport == Transport::Stopped
            &&& post.volume == pre.volume
        },
        PlayerCommand::TogglePause => post == pre.toggle_t(),
        PlayerCommand::Resume => post == pre.play_t(),
        PlayerCommand::VolumeUp => post == pre.volume_up_t(),
        PlayerCommand::VolumeDown => post == pre.volume_down_t(),
    }
}

impl PlaybackController {
    /// Apply one player command; the result reports whether it was a quit.
    pub fn audio_cmd(&mut self, pcmd: PlayerCommand) -> (quit: bool)
        requires
            old(self).wf(),
        ensures
            audio_cmd_ok(*old(self), pcmd, *final(self), quit),
            final(self).wf(),
    {
        match pcmd {
            PlayerCommand::Quit => true,
            PlayerCommand::Skip => false,
            PlayerCommand::Help => false,
            PlayerCommand::ClearQueue => {
                self.clear();
                false
            },
            PlayerCommand::Stop => {
                self.clear();
                false
            },
            PlayerCommand::TogglePause => {
                self.toggle_pause();
                false
            },
            PlayerCommand::Resume => {
                self.play();
                false
            },
            PlayerCommand::VolumeUp => {
                self.volume_up();
                false
            },
            PlayerCommand::VolumeDown => {
                self.volume_down();
                false
            },
        }
    }
}

/// The view of an optional query line.
pub open spec fn opt_text_view(q: Option<String>) -> Option<Seq<char>> {
    match q {
        Some(s) => Some(s@),
        None => None,
    }
}

/// What a command line resolves to: only in command mode, ":q" quits and
/// ":h" or ":help" opens help; everything else is rejected.
pub open spec fn run_cmd_spec(mode: PlayerMode, query: Option<Seq<char>>) -> Result<
    PlayerCommand,
    (),
> {
    if mode == PlayerMode::Command {
        match query {
            Some(q) => {
                if q == ":q"@ {
                    Ok(PlayerCommand::Quit)
                } else if q == ":h"@ || q == ":help"@ {
                    Ok(PlayerCommand::Help)
                } else {
                    Err(())
                }
            },
            None => Err(()),
        }
    } else {
        Err(())
    }
}

/// Parse the entered command line into a player command.
pub fn run_cmd(mode: &PlayerMode, query: &Option<String>) -> (r: Result<PlayerCommand, ()>)
    ensures
        r == run_cmd_spec(*mode, opt_text_view(*query)),
{
    if *mode == PlayerMode::Command {
        match query {
            Some(cmd) => {
                if *cmd == ":q".to_owned() {
                    Ok(PlayerCommand::Quit)
                } else if *cmd == ":h".to_owned() || *cmd == ":help".to_owned() {
                    Ok(PlayerCommand::Help)
                } else {
                    Err(())
                }
            },
            None => Err(()),
        }
    } else {
        Err(())
    }
}

/// Pausing twice is the same as pausing once.
pub proof fn lemma_pause_idempotent(p: PlaybackController)
    ensures
        p.pause_t().pause_t() == p.pause_t(),
{
}

/// Resuming twice is the same as resuming once.
pub proof fn lemma_play_idempotent(p: PlaybackController)
    ensures
        p.play_t().play_t() == p.play_t(),
{
}

/// However often the volume is stepped, it never leaves `[0, MAX_VOLUME]`.
pub proof fn lemma_volume_clamped(p: PlaybackController)
    requires
        p.wf(),
    ensures
        p.volume_up_t().wf(),
        p.volume_down_t().wf(),
{
}

} // verus!
