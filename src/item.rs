//! Catalog entries and the text shown for them.

use vstd::prelude::*;

use crate::text::{int_text, pad2_text, push_int, push_pad2};

verus! {

/// Ticks (100 ns) in one second.
pub const TICKS_PER_SECOND: i64 = 10_000_000;

/// Ticks (100 ns) in one minute.
pub const TICKS_PER_MINUTE: i64 = 600_000_000;

/// One entry of the remote catalog: a movie, a series or an episode.
///
/// `imdb_rating` holds the community rating as decimal text; runtimes are in
/// ticks of 100 ns; `parent_index_number` is an episode's season and
/// `index_number` its number within the season.
#[derive(Debug)]
pub struct MediaItem {
    pub id: String,
    pub name: String,
    pub type_: String,
    pub path: Option<String>,
    pub collection_type: Option<String>,
    pub year: Option<i32>,
    pub overview: Option<String>,
    pub imdb_rating: Option<String>,
    pub critic_rating: Option<i32>,
    pub runtime_ticks: Option<i64>,
    pub series_id: Option<String>,
    pub series_name: Option<String>,
    pub parent_index_number: Option<i64>,
    pub index_number: Option<i64>,
}

impl Clone for MediaItem {
    fn clone(&self) -> (r: Self)
        ensures
            r == *self,
    {
        MediaItem {
            id: self.id.clone(),
            name: self.name.clone(),
            type_: self.type_.clone(),
            path: self.path.clone(),
            collection_type: self.collection_type.clone(),
            year: self.year,
            overview: self.overview.clone(),
            imdb_rating: self.imdb_rating.clone(),
            critic_rating: self.critic_rating,
            runtime_ticks: self.runtime_ticks,
            series_id: self.series_id.clone(),
            series_name: self.series_name.clone(),
            parent_index_number: self.parent_index_number,
            index_number: self.index_number,
        }
    }
}

/// Whole minutes in `ticks`, truncated toward zero.
pub open spec fn total_minutes(ticks: int) -> int {
    if ticks < 0 {
        -((-ticks) / (TICKS_PER_MINUTE as int))
    } else {
        ticks / (TICKS_PER_MINUTE as int)
    }
}

/// Runtime text: `"<h>h <m>m"` when at least one hour, else `"<m>m"`, where
/// the minutes are what is left after whole hours (signs as integer division
/// toward zero gives them).
pub open spec fn runtime_text(ticks: Option<i64>) -> Seq<char> {
    match ticks {
        None => "Unknown runtime"@,
        Some(t) => {
            let tm = total_minutes(t as int);
            let hours = if tm < 0 { -((-tm) / 60) } else { tm / 60 };
            let minutes = tm - hours * 60;
            if hours > 0 {
                int_text(hours) + "h "@ + int_text(minutes) + "m"@
            } else {
                int_text(minutes) + "m"@
            }
        },
    }
}

/// Title shown for an item: `"<series> - S<ss>E<ee> - <name>"` for an episode
/// (missing series name, season or number read as "Unknown Series" and 0),
/// `"<name> (<year>)"` for another item with a year, and the name alone otherwise.
pub open spec fn title_text(item: MediaItem) -> Seq<char> {
    if item.type_@ == "Episode"@ {
        let series = match item.series_name {
            Some(s) => s@,
            None => "Unknown Series"@,
        };
        let season = match item.parent_index_number {
            Some(n) => n as int,
            None => 0,
        };
        let episode = match item.index_number {
            Some(n) => n as int,
            None => 0,
        };
        series + " - S"@ + pad2_text(season) + "E"@ + pad2_text(episode) + " - "@ + item.name@
    } else {
        match item.year {
            Some(y) => item.name@ + " ("@ + int_text(y as int) + ")"@,
            None => item.name@,
        }
    }
}

/// Relies on chrono's `Local::now`, `Duration::seconds` and the `%H:%M` format:
/// the local clock time `secs` seconds from now, as a two-digit hour, ':' and a
/// two-digit minute. Within the bound the addition stays inside chrono's range.
#[verifier::external_body]
fn clock_after(secs: i64) -> (r: String)
    requires
        -1_000_000_000_000 <= secs <= 1_000_000_000_000,
    ensures
        r@.len() == 5,
        r@[2] == ':',
{
    (chrono::Local::now() + chrono::Duration::seconds(secs)).format("%H:%M").to_string()
}

impl MediaItem {
    /// The runtime as hours and minutes, or "Unknown runtime".
    pub fn format_runtime(&self) -> (r: String)
        ensures
            r@ == runtime_text(self.runtime_ticks),
    {
        match self.runtime_ticks {
            None => {
                proof {
                    reveal_strlit("Unknown runtime");
                }
                String::from_str("Unknown runtime")
            },
            Some(ticks) => {
                let tm: i64 = if ticks < 0 {
                    -((-(ticks as i128)) / (TICKS_PER_MINUTE as i128)) as i64
                } else {
                    ticks / TICKS_PER_MINUTE
                };
                let hours: i64 = if tm < 0 {
                    -((-tm) / 60)
                } else {
                    tm / 60
                };
                let minutes: i64 = tm - hours * 60;
                let mut s = String::new();
                if hours > 0 {
                    push_int(&mut s, hours);
                    s.append("h ");
                    push_int(&mut s, minutes);
                    s.append("m");
                } else {
                    push_int(&mut s, minutes);
                    s.append("m");
                }
                assert(s@ =~= runtime_text(self.runtime_ticks));
                s
            },
        }
    }

    /// The local clock time at which playback started now would end
    /// (`HH:MM`), or "Unknown runtime".
    pub fn format_end_time(&self) -> (r: String)
        ensures
            self.runtime_ticks is None ==> r@ == "Unknown runtime"@,
            self.runtime_ticks is Some ==> r@.len() == 5 && r@[2] == ':',
    {
        match self.runtime_ticks {
            None => String::from_str("Unknown runtime"),
            Some(ticks) => {
                let secs: i64 = if ticks < 0 {
                    -((-(ticks as i128)) / (TICKS_PER_SECOND as i128)) as i64
                } else {
                    ticks / TICKS_PER_SECOND
                };
                clock_after(secs)
            },
        }
    }

    /// The title given to the player window for this item.
    pub fn format_title(&self) -> (r: String)
        ensures
            r@ == title_text(*self),
    {
        let episode = String::from_str("Episode");
        if self.type_ == episode {
            let mut s = String::new();
            match &self.series_name {
                Some(n) => s.append(n.as_str()),
                None => s.append("Unknown Series"),
            }
            s.append(" - S");
            match self.parent_index_number {
                Some(n) => push_pad2(&mut s, n),
                None => push_pad2(&mut s, 0),
            }
            s.append("E");
            match self.index_number {
                Some(n) => push_pad2(&mut s, n),
                None => push_pad2(&mut s, 0),
            }
            s.append(" - ");
            s.append(self.name.as_str());
            assert(s@ =~= title_text(*self));
            s
        } else {
            match self.year {
                Some(y) => {
                    let mut s = self.name.clone();
                    s.append(" (");
                    push_int(&mut s, y as i64);
                    s.append(")");
                    assert(s@ =~= title_text(*self));
                    s
                },
                None => self.name.clone(),
            }
        }
    }
}

} // verus!
