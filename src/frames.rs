//! Newline-delimited framing of the player's control stream, and the
//! classification of a decoded frame into a monitor event.

use vstd::prelude::*;

use crate::monitor::PlayerEvent;

verus! {

/// The byte that ends a frame.
pub const NEWLINE: u8 = 10;

pub open spec fn has_no_newline(s: Seq<u8>) -> bool {
    forall|i: int| 0 <= i < s.len() ==> s[i] != NEWLINE
}

/// Bytes read from the control socket that do not yet form a whole frame.
pub struct LineBuffer {
    pending: Vec<u8>,
}

impl LineBuffer {
    /// The bytes held.
    pub closed spec fn view(&self) -> Seq<u8> {
        self.pending@
    }

    pub fn new() -> (r: LineBuffer)
        ensures
            r.view() == Seq::<u8>::empty(),
    {
        LineBuffer { pending: Vec::new() }
    }

    /// Appends bytes as they were read.
    pub fn push_bytes(&mut self, data: &[u8])
        ensures
            final(self).view() == old(self).view() + data@,
    {
        let mut i: usize = 0;
        while i < data.len()
            invariant
                i <= data@.len(),
                self.pending@ == old(self).pending@ + data@.take(i as int),
            decreases data@.len() - i,
        {
            self.pending.push(data[i]);
            i += 1;
            assert(self.pending@ =~= old(self).pending@ + data@.take(i as int));
        }
        assert(data@.take(data@.len() as int) =~= data@);
    }

    /// Takes the first whole frame, without its newline; `None` while no
    /// newline has arrived.
    pub fn next_line(&mut self) -> (r: Option<Vec<u8>>)
        ensures
            match r {
                Some(line) => has_no_newline(line@) && old(self).view() == line@ + seq![NEWLINE]
                    + final(self).view(),
                None => has_no_newline(old(self).view()) && final(self).view() == old(self).view(),
            },
    {
        let mut k: usize = 0;
        while k < self.pending.len() && self.pending[k] != NEWLINE
            invariant
                k <= self.pending@.len(),
                has_no_newline(self.pending@.take(k as int)),
            decreases self.pending@.len() - k,
        {
            k += 1;
            assert(self.pending@.take(k as int) =~= self.pending@.take(k - 1).push(self.pending@[k - 1]));
        }
        if k == self.pending.len() {
            assert(self.pending@.take(k as int) =~= self.pending@);
            return None;
        }
        let mut line: Vec<u8> = Vec::new();
        let mut i: usize = 0;
        while i < k
            invariant
                k < self.pending@.len(),
                i <= k,
                line@ == self.pending@.take(i as int),
            decreases k - i,
        {
            line.push(self.pending[i]);
            i += 1;
            assert(line@ =~= self.pending@.take(i as int));
        }
        let mut rest: Vec<u8> = Vec::new();
        let mut j: usize = k + 1;
        while j < self.pending.len()
            invariant
                k < j <= self.pending@.len(),
                rest@ == self.pending@.subrange(k + 1, j as int),
            decreases self.pending@.len() - j,
        {
            rest.push(self.pending[j]);
            j += 1;
            assert(rest@ =~= self.pending@.subrange(k + 1, j as int));
        }
        let ghost before = self.pending@;
        self.pending = rest;
        assert(before =~= line@ + seq![NEWLINE] + self.pending@);
        Some(line)
    }
}

/// The event a frame stands for: a change of the pause flag or of the
/// position, or the end of the file (at the end of the stream when its
/// reason is "eof"); any other frame, or one without the data its kind
/// needs, is `Other`.
pub open spec fn frame_event(
    event: Option<Seq<char>>,
    name: Option<Seq<char>>,
    flag: Option<bool>,
    position_ticks: Option<i64>,
    reason: Option<Seq<char>>,
) -> PlayerEvent {
    match event {
        Some(ev) => if ev == "property-change"@ {
            match name {
                Some(n) => if n == "pause"@ {
                    match flag {
                        Some(b) => PlayerEvent::Pause { paused: b },
                        None => PlayerEvent::Other,
                    }
                } else if n == "playback-time"@ {
                    match position_ticks {
                        Some(t) => PlayerEvent::Position { ticks: t },
                        None => PlayerEvent::Other,
                    }
                } else {
                    PlayerEvent::Other
                },
                None => PlayerEvent::Other,
            }
        } else if ev == "end-file"@ {
            PlayerEvent::EndFile { at_end: reason == Some("eof"@) }
        } else {
            PlayerEvent::Other
        },
        None => PlayerEvent::Other,
    }
}

fn text_is(s: &Option<String>, lit: &str) -> (r: bool)
    ensures
        r == (match s {
            Some(t) => t@ == lit@,
            None => false,
        }),
{
    match s {
        Some(t) => *t == String::from_str(lit),
        None => false,
    }
}

/// Classifies a decoded frame by its fields: `event`, `name`, `data` read as
/// a flag or as a position in ticks, and `reason`.
pub fn classify_frame(
    event: &Option<String>,
    name: &Option<String>,
    flag: Option<bool>,
    position_ticks: Option<i64>,
    reason: &Option<String>,
) -> (r: PlayerEvent)
    ensures
        r == frame_event(
            match event {
                Some(s) => Some(s@),
                None => None,
            },
            match name {
                Some(s) => Some(s@),
                None => None,
            },
            flag,
            position_ticks,
            match reason {
                Some(s) => Some(s@),
                None => None,
            },
        ),
{
    if text_is(event, "property-change") {
        if text_is(name, "pause") {
            match flag {
                Some(b) => PlayerEvent::Pause { paused: b },
                None => PlayerEvent::Other,
            }
        } else if text_is(name, "playback-time") {
            match position_ticks {
                Some(t) => PlayerEvent::Position { ticks: t },
                None => PlayerEvent::Other,
            }
        } else {
            PlayerEvent::Other
        }
    } else if text_is(event, "end-file") {
        PlayerEvent::EndFile { at_end: text_is(reason, "eof") }
    } else {
        PlayerEvent::Other
    }
}

} // verus!
