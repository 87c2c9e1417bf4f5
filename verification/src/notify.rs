//! Ephemeral notifications and the modal overlay popup.
//!
//! Notifications are purely advisory: each tick every time-to-live drops by
//! one, a notification whose time is up is removed, and the survivors are
//! renumbered so their stacking indices stay densely packed from one.

use vstd::prelude::*;

verus! {

/// Ticks a freshly pushed notification stays visible.
pub const NOTIF_DURATION: usize = 60;

/// Render style of a popup line or border.
#[derive(Clone, Copy, PartialEq, Eq, Structural, Debug)]
pub enum NotifStyle {
    White,
    Green,
    Yellow,
    Red,
    Blue,
}

/// One stacked notification.
pub struct PopupNotif {
    pub message: String,
    pub style: NotifStyle,
    /// Remaining ticks; the notification is destroyed when this reaches zero.
    pub ttl_ticks: usize,
    /// Position in the rendered stack, 1-based, dense after every removal.
    pub stack_index: usize,
}

impl Clone for PopupNotif {
    fn clone(&self) -> (r: PopupNotif)
        ensures
            r == *self,
    {
        PopupNotif {
            message: self.message.clone(),
            style: self.style,
            ttl_ticks: self.ttl_ticks,
            stack_index: self.stack_index,
        }
    }
}

impl Default for PopupNotif {
    fn default() -> (r: PopupNotif)
        ensures
            r.message@ == "This is a notification popup!"@,
            r.style == NotifStyle::Green,
            r.ttl_ticks == 30,
            r.stack_index == 1,
    {
        PopupNotif {
            message: "This is a notification popup!".to_owned(),
            style: NotifStyle::Green,
            ttl_ticks: 30,
            stack_index: 1,
        }
    }
}

/// The modal overlay popup: while one is open it blocks every input except
/// its dismissal.
pub struct PopupManual {
    pub title: String,
    pub message: Vec<(String, NotifStyle)>,
    pub bottom_hint: String,
    pub border_color: NotifStyle,
}

impl Default for PopupManual {
    fn default() -> (r: PopupManual)
        ensures
            r.title@ == "Popup"@,
            r.message@.len() == 1,
            r.message@[0].0@ == "This is a manual popup"@,
            r.message@[0].1 == NotifStyle::White,
            r.bottom_hint@ == "Press <Esc> to close the window"@,
            r.border_color == NotifStyle::Red,
    {
        let mut message: Vec<(String, NotifStyle)> = Vec::new();
        message.push(("This is a manual popup".to_owned(), NotifStyle::White));
        PopupManual {
            title: "Popup".to_owned(),
            message,
            bottom_hint: "Press <Esc> to close the window".to_owned(),
            border_color: NotifStyle::Red,
        }
    }
}

/// One tick over a notification stack whose first survivor will be numbered
/// `k + 1`: time-to-live counts down by one, a notification whose time is up
/// disappears, and the survivors keep their order under fresh dense indices.
pub open spec fn tick_notifs(s: Seq<PopupNotif>, k: int) -> Seq<PopupNotif>
    decreases s.len(),
{
    if s.len() == 0 {
        Seq::empty()
    } else if s[0].ttl_ticks > 1 {
        seq![
            PopupNotif {
                ttl_ticks: (s[0].ttl_ticks - 1) as usize,
                stack_index: (k + 1) as usize,
                ..s[0]
            },
        ] + tick_notifs(s.drop_first(), k + 1)
    } else {
        tick_notifs(s.drop_first(), k)
    }
}

/// Advance the stack by one tick.
pub fn tick_notifications(notifs: &Vec<PopupNotif>) -> (out: Vec<PopupNotif>)
    ensures
        out@ == tick_notifs(notifs@, 0),
{
    let mut out: Vec<PopupNotif> = Vec::new();
    let n = notifs.len();
    let mut i: usize = 0;
    proof {
        assert(notifs@.skip(0) =~= notifs@);
        assert(out@ + tick_notifs(notifs@, 0) =~= tick_notifs(notifs@, 0));
    }
    while i < n
        invariant
            n == notifs@.len(),
            i <= n,
            out@.len() <= i,
            out@ + tick_notifs(notifs@.skip(i as int), out@.len() as int) == tick_notifs(
                notifs@,
                0,
            ),
        decreases n - i,
    {
        proof {
            let suffix = notifs@.skip(i as int);
            assert(suffix[0] == notifs@[i as int]);
            assert(suffix.drop_first() =~= notifs@.skip(i as int + 1));
        }
        let ghost before = out@;
        let notif = &notifs[i];
        if notif.ttl_ticks > 1 {
            let fresh = PopupNotif {
                message: notif.message.clone(),
                style: notif.style,
                ttl_ticks: notif.ttl_ticks - 1,
                stack_index: out.len() + 1,
            };
            out.push(fresh);
            proof {
                assert(out@ =~= before.push(fresh));
                assert(tick_notifs(notifs@.skip(i as int), before.len() as int) == seq![fresh]
                    + tick_notifs(notifs@.skip(i as int + 1), before.len() as int + 1));
                assert(out@ + tick_notifs(notifs@.skip(i as int + 1), out@.len() as int) =~= before
                    + tick_notifs(notifs@.skip(i as int), before.len() as int));
            }
        } else {
            proof {
                assert(tick_notifs(notifs@.skip(i as int), before.len() as int) == tick_notifs(
                    notifs@.skip(i as int + 1),
                    before.len() as int,
                ));
            }
        }
        i += 1;
    }
    proof {
        assert(notifs@.skip(n as int).len() == 0);
        assert(out@ + tick_notifs(notifs@.skip(n as int), out@.len() as int) =~= out@);
    }
    out
}

/// Push a fresh notification: it takes the next stacking index and the fixed
/// initial time-to-live.
pub fn push_notification(notifs: &mut Vec<PopupNotif>, message: String, style: NotifStyle)
    requires
        old(notifs)@.len() < usize::MAX,
    ensures
        final(notifs)@ == old(notifs)@.push(
            PopupNotif {
                message,
                style,
                ttl_ticks: NOTIF_DURATION,
                stack_index: (old(notifs)@.len() + 1) as usize,
            },
        ),
{
    let idx = notifs.len() + 1;
    notifs.push(
        PopupNotif { message, style, ttl_ticks: NOTIF_DURATION, stack_index: idx },
    );
}

/// After a tick the surviving notifications are densely renumbered: the
/// stack that starts at number `k + 1` carries indices `k + 1, k + 2, ...`
/// in order, and it never grows.
pub proof fn lemma_tick_notifs_dense(s: Seq<PopupNotif>, k: int)
    requires
        0 <= k,
        k + s.len() <= usize::MAX,
    ensures
        tick_notifs(s, k).len() <= s.len(),
        forall|j: int|
            0 <= j < tick_notifs(s, k).len() ==> (#[trigger] tick_notifs(s, k)[j]).stack_index == k
                + j + 1,
    decreases s.len(),
{
    if s.len() == 0 {
    } else if s[0].ttl_ticks > 1 {
        lemma_tick_notifs_dense(s.drop_first(), k + 1);
        assert forall|j: int| 0 <= j < tick_notifs(s, k).len() implies (#[trigger] tick_notifs(
            s,
            k,
        )[j]).stack_index == k + j + 1 by {
            if j > 0 {
                assert(tick_notifs(s, k)[j] == tick_notifs(s.drop_first(), k + 1)[j - 1]);
            }
        }
    } else {
        lemma_tick_notifs_dense(s.drop_first(), k);
    }
}

} // verus!
