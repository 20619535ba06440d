//! The command line the external player is started with.

use vstd::prelude::*;

use crate::item::{title_text, MediaItem, TICKS_PER_SECOND};
use crate::monitor::{socket_path, socket_path_text};
use crate::session::{Credentials, UserPreferences};
use crate::text::{int_text, push_int};

verus! {

/// How long to wait after starting the player before connecting to its
/// control socket, which the player creates some time after it starts.
pub const PLAYER_WARMUP_MS: u64 = 2_000;

/// Whole seconds in `ticks`, truncated toward zero.
pub open spec fn seconds_of(ticks: int) -> int {
    if ticks < 0 {
        -((-ticks) / (TICKS_PER_SECOND as int))
    } else {
        ticks / (TICKS_PER_SECOND as int)
    }
}

/// Whole seconds in `ticks`, truncated toward zero.
pub fn ticks_to_seconds(ticks: i64) -> (r: i64)
    ensures
        r == seconds_of(ticks as int),
{
    if ticks < 0 {
        -((-(ticks as i128)) / (TICKS_PER_SECOND as i128)) as i64
    } else {
        ticks / TICKS_PER_SECOND
    }
}

/// The direct stream of item `id` on `server`, authorised by `token`.
pub open spec fn stream_url_text(server: Seq<char>, id: Seq<char>, token: Seq<char>) -> Seq<char> {
    server + "/Videos/"@ + id + "/stream?static=true&mediaSourceId="@ + id + "&tag="@ + token
}

/// The audio flag: only when the user does not always take the default track
/// and has a preferred language.
pub open spec fn audio_args(prefs: UserPreferences) -> Seq<Seq<char>> {
    match prefs.audio_language_preference {
        Some(lang) => if !prefs.play_default_audio_track {
            seq!["--alang="@ + lang@]
        } else {
            seq![]
        },
        None => seq![],
    }
}

/// The subtitle flags: none at all for "none", else the language and fuzzy
/// matching of external subtitle files.
pub open spec fn subtitle_args(prefs: UserPreferences) -> Seq<Seq<char>> {
    if prefs.subtitle_language_preference@ == "none"@ {
        seq!["--no-sub"@]
    } else {
        seq!["--slang="@ + prefs.subtitle_language_preference@, "--sub-auto=fuzzy"@]
    }
}

/// The start offset, when the stored position is at least one second in.
pub open spec fn start_args(position_ticks: int) -> Seq<Seq<char>> {
    if seconds_of(position_ticks) > 0 {
        seq!["--start="@ + int_text(seconds_of(position_ticks))]
    } else {
        seq![]
    }
}

/// The player's arguments for `item`.
pub open spec fn player_args_text(
    server: Seq<char>,
    item: MediaItem,
    credentials: Credentials,
    position_ticks: int,
    runtime_ticks: int,
) -> Seq<Seq<char>> {
    seq![
        stream_url_text(server, item.id@, credentials.access_token@),
        "--no-cache-pause"@,
        "--demuxer-lavf-probe-info=yes"@,
        "--demuxer-lavf-analyzeduration=10"@,
        "--length="@ + int_text(seconds_of(runtime_ticks)),
        "--force-media-title="@ + title_text(item),
        "--http-header-fields=X-MediaBrowser-Token: "@ + credentials.access_token@,
        "--input-ipc-server="@ + socket_path_text(item.id@),
    ] + audio_args(credentials.preferences) + subtitle_args(credentials.preferences) + start_args(
        position_ticks,
    )
}

/// The texts of a list of strings.
pub open spec fn texts(v: Seq<String>) -> Seq<Seq<char>> {
    v.map_values(|s: String| s@)
}

fn push_text(args: &mut Vec<String>, s: String)
    ensures
        texts(final(args)@) == texts(old(args)@).push(s@),
{
    args.push(s);
    assert(texts(args@) =~= texts(old(args)@).push(s@));
}

fn flag(name: &str, value: &str) -> (r: String)
    ensures
        r@ == name@ + value@,
{
    let mut s = String::from_str(name);
    s.append(value);
    s
}

/// The arguments the player is started with: the stream, a forced title, the
/// token header, the control socket, and the audio, subtitle and start flags.
pub fn player_args(
    server_url: &str,
    item: &MediaItem,
    credentials: &Credentials,
    position_ticks: i64,
    runtime_ticks: i64,
) -> (r: Vec<String>)
    ensures
        texts(r@) == player_args_text(
            server_url@,
            *item,
            *credentials,
            position_ticks as int,
            runtime_ticks as int,
        ),
{
    let token = credentials.access_token.as_str();
    let prefs = &credentials.preferences;
    let mut args: Vec<String> = Vec::new();
    let mut url = String::from_str(server_url);
    url.append("/Videos/");
    url.append(item.id.as_str());
    url.append("/stream?static=true&mediaSourceId=");
    url.append(item.id.as_str());
    url.append("&tag=");
    url.append(token);
    push_text(&mut args, url);
    push_text(&mut args, String::from_str("--no-cache-pause"));
    push_text(&mut args, String::from_str("--demuxer-lavf-probe-info=yes"));
    push_text(&mut args, String::from_str("--demuxer-lavf-analyzeduration=10"));
    let mut length = String::from_str("--length=");
    push_int(&mut length, ticks_to_seconds(runtime_ticks));
    push_text(&mut args, length);
    let title = item.format_title();
    push_text(&mut args, flag("--force-media-title=", title.as_str()));
    push_text(&mut args, flag("--http-header-fields=X-MediaBrowser-Token: ", token));
    let socket = socket_path(item.id.as_str());
    push_text(&mut args, flag("--input-ipc-server=", socket.as_str()));
    let ghost base = texts(args@);
    match &prefs.audio_language_preference {
        Some(lang) => {
            if !prefs.play_default_audio_track {
                push_text(&mut args, flag("--alang=", lang.as_str()));
            }
        },
        None => {},
    }
    assert(texts(args@) =~= base + audio_args(*prefs));
    let ghost with_audio = texts(args@);
    if prefs.subtitle_language_preference == String::from_str("none") {
        push_text(&mut args, String::from_str("--no-sub"));
    } else {
        push_text(&mut args, flag("--slang=", prefs.subtitle_language_preference.as_str()));
        push_text(&mut args, String::from_str("--sub-auto=fuzzy"));
    }
    assert(texts(args@) =~= with_audio + subtitle_args(*prefs));
    let ghost with_subs = texts(args@);
    let start = ticks_to_seconds(position_ticks);
    if start > 0 {
        let mut s = String::from_str("--start=");
        push_int(&mut s, start);
        push_text(&mut args, s);
    }
    assert(texts(args@) =~= with_subs + start_args(position_ticks as int));
    assert(texts(args@) =~= player_args_text(
        server_url@,
        *item,
        *credentials,
        position_ticks as int,
        runtime_ticks as int,
    ));
    args
}

} // verus!
