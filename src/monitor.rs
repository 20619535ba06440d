//! The playback monitor: a state machine from the player's control-socket
//! events to the actions the session runner performs (retry the connection,
//! subscribe, report progress, finish).
//!
//! Times are milliseconds since the session started; positions are ticks.

use vstd::prelude::*;

use crate::catalog::{next_episode_of, Catalog};
use crate::item::MediaItem;
use crate::text::{nat_text, push_nat};

verus! {

/// How long the control socket may stay unreachable.
pub const CONNECT_TIMEOUT_MS: u64 = 10_000;

/// Pause between two connection attempts.
pub const CONNECT_RETRY_MS: u64 = 50;

/// Smallest change of position (5 s) worth reporting.
pub const MIN_REPORT_DELTA_TICKS: i64 = 50_000_000;

/// Smallest wall-clock gap between two position reports.
pub const MIN_REPORT_GAP_MS: u64 = 10_000;

#[derive(Debug, Clone, Copy, PartialEq, Eq, Structural)]
pub enum Phase {
    Connecting,
    Observing,
    Finished,
}

/// One decoded frame of the player's control protocol.
#[derive(Debug)]
pub enum PlayerEvent {
    /// The playback position changed (converted to ticks).
    Position { ticks: i64 },
    /// The pause flag changed.
    Pause { paused: bool },
    /// The file ended; `at_end` when the reason was the end of the stream.
    EndFile { at_end: bool },
    /// Any other frame.
    Other,
}

/// What happened to the session, as the runner saw it.
#[derive(Debug)]
pub enum MonitorEvent {
    /// An attempt to connect to the control socket failed at `now_ms`.
    ConnectFailed { now_ms: u64 },
    /// The control socket accepted the connection.
    Connected,
    /// A frame arrived at `now_ms`.
    Frame { event: PlayerEvent, now_ms: u64 },
    /// The control socket was closed by the player.
    Closed,
}

/// What the runner is to do next.
#[derive(Debug)]
pub enum MonitorAction {
    /// Try to connect again after `delay_ms`.
    RetryConnect { delay_ms: u64 },
    /// Write these subscription commands to the socket.
    Subscribe { commands: String },
    /// Report the position (and the pause flag, when it changed) to the server.
    PushProgress { position_ticks: i64, paused: Option<bool> },
    /// Nothing to do.
    Ignore,
    /// The session is over: report it stopped at `position_ticks`, remove the
    /// control socket, and continue with `next` if there is one.
    Finish { position_ticks: i64, next: Option<MediaItem> },
}

/// Whether a position event at `now` moving to `ticks` is reported, given the
/// last reported position and the time of that report.
pub open spec fn position_reported(last_ticks: int, last_ms: int, ticks: int, now: int) -> bool {
    (ticks - last_ticks >= MIN_REPORT_DELTA_TICKS || last_ticks - ticks >= MIN_REPORT_DELTA_TICKS)
        && now - last_ms >= MIN_REPORT_GAP_MS
}

/// Number of reports a run of position events `(ticks, now)` produces.
pub open spec fn position_reports(last_ticks: int, last_ms: int, evs: Seq<(int, int)>) -> nat
    decreases evs.len(),
{
    if evs.len() == 0 {
        0
    } else if position_reported(last_ticks, last_ms, evs[0].0, evs[0].1) {
        1 + position_reports(evs[0].0, evs[0].1, evs.drop_first())
    } else {
        position_reports(last_ticks, last_ms, evs.drop_first())
    }
}

/// A subscription command for the property `name`, tagged `tag`.
pub open spec fn observe_line(tag: nat, name: Seq<char>) -> Seq<char> {
    "{\"command\":[\"observe_property\","@ + nat_text(tag) + ",\""@ + name + "\"]}\n"@
}

/// The three subscriptions: position, pause flag, end-of-file flag.
pub open spec fn subscribe_text() -> Seq<char> {
    observe_line(1, "playback-time"@) + observe_line(2, "pause"@) + observe_line(3, "eof-reached"@)
}

/// Path of the control socket of the item `id`.
pub open spec fn socket_path_text(id: Seq<char>) -> Seq<char> {
    "/tmp/mpv-socket-"@ + id
}

/// The control socket of the item `id`: unique per item.
pub fn socket_path(id: &str) -> (r: String)
    ensures
        r@ == socket_path_text(id@),
{
    let mut s = String::from_str("/tmp/mpv-socket-");
    s.append(id);
    s
}

fn push_observe(s: &mut String, tag: u64, name: &str)
    ensures
        final(s)@ == old(s)@ + observe_line(tag as nat, name@),
{
    s.append("{\"command\":[\"observe_property\",");
    push_nat(s, tag);
    s.append(",\"");
    s.append(name);
    s.append("\"]}\n");
    assert(s@ =~= old(s)@ + observe_line(tag as nat, name@));
}

/// The subscription commands sent once the socket is connected.
pub fn subscribe_commands() -> (r: String)
    ensures
        r@ == subscribe_text(),
{
    let mut s = String::new();
    push_observe(&mut s, 1, "playback-time");
    push_observe(&mut s, 2, "pause");
    push_observe(&mut s, 3, "eof-reached");
    assert(s@ =~= subscribe_text());
    s
}

/// The state of one playback session.
pub struct PlaybackMonitor {
    pub item: MediaItem,
    pub phase: Phase,
    /// Last position reported to the server.
    pub last_position: i64,
    /// When the last report was made (the session start before any).
    pub last_update_ms: u64,
}

impl PlaybackMonitor {
    /// A session for `item` that starts by connecting to the control socket.
    pub fn new(item: MediaItem) -> (r: PlaybackMonitor)
        ensures
            r.item == item,
            r.phase == Phase::Connecting,
            r.last_position == 0,
            r.last_update_ms == 0,
    {
        PlaybackMonitor { item, phase: Phase::Connecting, last_position: 0, last_update_ms: 0 }
    }

    /// Decides what follows `event`, given the catalog the next episode is
    /// taken from.
    pub fn on_event(&mut self, event: MonitorEvent, catalog: &Catalog) -> (r: MonitorAction)
        ensures
            final(self).item == old(self).item,
            // a finished session stays finished and does nothing more
            old(self).phase == Phase::Finished ==> r is Ignore && *final(self) == *old(self),
            // the session ends exactly when a Finish is handed out
            (r is Finish) <==> (old(self).phase != Phase::Finished && final(self).phase == Phase::Finished),
            r matches MonitorAction::Finish { position_ticks, .. } ==> position_ticks == old(self).last_position
                && final(self).last_position == old(self).last_position
                && final(self).last_update_ms == old(self).last_update_ms,
            // only a reported position moves the last report
            !(r matches MonitorAction::PushProgress { paused, .. } && paused is None) ==> (
            final(self).last_position == old(self).last_position && final(self).last_update_ms
                == old(self).last_update_ms),
            // connecting: retry every 50 ms until 10 s have passed, then give up with no next item
            old(self).phase == Phase::Connecting ==> match event {
                MonitorEvent::ConnectFailed { now_ms } => if now_ms >= CONNECT_TIMEOUT_MS {
                    r matches MonitorAction::Finish { next, .. } && next is None
                } else {
                    r == MonitorAction::RetryConnect { delay_ms: CONNECT_RETRY_MS } && *final(self) == *old(self)
                },
                MonitorEvent::Connected => final(self).phase == Phase::Observing && (r matches MonitorAction::Subscribe { commands } && commands@ == subscribe_text()),
                MonitorEvent::Closed => r matches MonitorAction::Finish { next, .. } && next is None,
                MonitorEvent::Frame { .. } => r is Ignore && *final(self) == *old(self),
            },
            old(self).phase == Phase::Observing ==> match event {
                MonitorEvent::Frame { event: PlayerEvent::Pause { paused }, .. } =>
                    r == MonitorAction::PushProgress { position_ticks: old(self).last_position, paused: Some(paused) }
                    && *final(self) == *old(self),
                MonitorEvent::Frame { event: PlayerEvent::Position { ticks }, now_ms } =>
                    if position_reported(old(self).last_position as int, old(self).last_update_ms as int, ticks as int, now_ms as int) {
                        r == MonitorAction::PushProgress { position_ticks: ticks, paused: None }
                        && final(self).last_position == ticks && final(self).last_update_ms == now_ms
                        && final(self).phase == Phase::Observing
                    } else {
                        r is Ignore && *final(self) == *old(self)
                    },
                MonitorEvent::Frame { event: PlayerEvent::EndFile { at_end }, .. } => if at_end {
                    r matches MonitorAction::Finish { next, .. } && next == next_episode_of(catalog.items@, old(self).item)
                } else {
                    r is Ignore && *final(self) == *old(self)
                },
                MonitorEvent::Frame { event: PlayerEvent::Other, .. } => r is Ignore && *final(self) == *old(self),
                MonitorEvent::Closed => r matches MonitorAction::Finish { next, .. } && next is None,
                MonitorEvent::ConnectFailed { .. } => r is Ignore && *final(self) == *old(self),
                MonitorEvent::Connected => r is Ignore && *final(self) == *old(self),
            },
    {
        match self.phase {
            Phase::Finished => MonitorAction::Ignore,
            Phase::Connecting => match event {
                MonitorEvent::ConnectFailed { now_ms } => {
                    if now_ms >= CONNECT_TIMEOUT_MS {
                        self.phase = Phase::Finished;
                        MonitorAction::Finish { position_ticks: self.last_position, next: None }
                    } else {
                        MonitorAction::RetryConnect { delay_ms: CONNECT_RETRY_MS }
                    }
                },
                MonitorEvent::Connected => {
                    self.phase = Phase::Observing;
                    MonitorAction::Subscribe { commands: subscribe_commands() }
                },
                MonitorEvent::Closed => {
                    self.phase = Phase::Finished;
                    MonitorAction::Finish { position_ticks: self.last_position, next: None }
                },
                MonitorEvent::Frame { .. } => MonitorAction::Ignore,
            },
            Phase::Observing => match event {
                MonitorEvent::Frame { event, now_ms } => match event {
                    PlayerEvent::Pause { paused } => MonitorAction::PushProgress {
                        position_ticks: self.last_position,
                        paused: Some(paused),
                    },
                    PlayerEvent::Position { ticks } => {
                        let d: i128 = ticks as i128 - self.last_position as i128;
                        let far = d >= MIN_REPORT_DELTA_TICKS as i128 || -d >= MIN_REPORT_DELTA_TICKS as i128;
                        let late = now_ms >= self.last_update_ms && now_ms - self.last_update_ms
                            >= MIN_REPORT_GAP_MS;
                        if far && late {
                            self.last_position = ticks;
                            self.last_update_ms = now_ms;
                            MonitorAction::PushProgress { position_ticks: ticks, paused: None }
                        } else {
                            MonitorAction::Ignore
                        }
                    },
                    PlayerEvent::EndFile { at_end } => {
                        if at_end {
                            self.phase = Phase::Finished;
                            MonitorAction::Finish {
                                position_ticks: self.last_position,
                                next: catalog.next_episode(&self.item),
                            }
                        } else {
                            MonitorAction::Ignore
                        }
                    },
                    PlayerEvent::Other => MonitorAction::Ignore,
                },
                MonitorEvent::Closed => {
                    self.phase = Phase::Finished;
                    MonitorAction::Finish { position_ticks: self.last_position, next: None }
                },
                MonitorEvent::ConnectFailed { .. } => MonitorAction::Ignore,
                MonitorEvent::Connected => MonitorAction::Ignore,
            },
        }
    }
}

/// A run of position events that all come less than 10 s after the last
/// report produces no report at all.
pub proof fn lemma_no_report_within_gap(last_ticks: int, last_ms: int, evs: Seq<(int, int)>)
    requires
        forall|i: int| 0 <= i < evs.len() ==> #[trigger] evs[i].1 < last_ms + MIN_REPORT_GAP_MS,
    ensures
        position_reports(last_ticks, last_ms, evs) == 0,
    decreases evs.len(),
{
    if evs.len() > 0 {
        assert forall|i: int| 0 <= i < evs.drop_first().len() implies #[trigger] evs.drop_first()[i].1
            < last_ms + MIN_REPORT_GAP_MS by {
            assert(evs.drop_first()[i] == evs[i + 1]);
        }
        lemma_no_report_within_gap(last_ticks, last_ms, evs.drop_first());
    }
}

/// Position throttling: however the positions move, a run of position events
/// that all fall within one 10-second window of wall-clock time produces at
/// most one progress report.
pub proof fn lemma_one_report_per_window(
    last_ticks: int,
    last_ms: int,
    window_start: int,
    evs: Seq<(int, int)>,
)
    requires
        forall|i: int|
            0 <= i < evs.len() ==> window_start <= #[trigger] evs[i].1 < window_start
                + MIN_REPORT_GAP_MS,
    ensures
        position_reports(last_ticks, last_ms, evs) <= 1,
    decreases evs.len(),
{
    if evs.len() > 0 {
        let rest = evs.drop_first();
        assert forall|i: int| 0 <= i < rest.len() implies window_start <= #[trigger] rest[i].1
            < window_start + MIN_REPORT_GAP_MS by {
            assert(rest[i] == evs[i + 1]);
        }
        if position_reported(last_ticks, last_ms, evs[0].0, evs[0].1) {
            assert(evs[0].1 < window_start + MIN_REPORT_GAP_MS);
            lemma_no_report_within_gap(evs[0].0, evs[0].1, rest);
        } else {
            lemma_one_report_per_window(last_ticks, last_ms, window_start, rest);
        }
    }
}

} // verus!
