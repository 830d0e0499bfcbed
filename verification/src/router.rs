//! The command router: a declarative map from an HTTP method and path to a
//! domain command.
//!
//! The table is evaluated in order and the first match wins; anything it
//! does not name falls through to no command, which the server answers with
//! status 404.  Typed path parameters follow their `FromStr` grammar (and
//! the decimal grammar of `parse::is_decimal` for the volume); a parameter
//! that does not parse leaves the route unmatched.
//!
//! The router only names the operation; carrying it out — a bridge
//! invocation or a direct collaborator call — and turning its outcome into
//! a response (see `response`) belong to the caller.

use crate::parse::check_decimal;
use crate::parse::is_decimal;
use crate::parse::parse_i8;
use crate::parse::parse_i8_spec;
use crate::parse::parse_u32;
use crate::parse::parse_u32_spec;
use crate::parse::parse_u64;
use crate::parse::parse_u64_spec;
use crate::parse::split_at_char;
use crate::parse::split_char;
use crate::parse::views_of;
use crate::text::chars_of;
use crate::text::str_eq_chars;
use crate::text::string_of;
use crate::text::string_views;
use crate::text::strings_of;
use vstd::prelude::*;

verus! {

/// A domain operation of the control plane, as one route names it.
#[allow(inconsistent_fields)]
pub enum Command {
    /// Liveness probe; no content.
    Active,
    /// The auth callback; the token is in the raw URL (see `auth`).
    AuthCallback,
    /// The currently playing song, answered as JSON.
    CurrentPlayingSong,
    /// Add the current song to the library; no content.
    AddToLibrary,
    /// Whether playback is running, answered as JSON.
    IsPlaying,
    /// Toggle autoplay, answered as JSON.
    ToggleAutoplay,
    /// Toggle shuffle, answered as JSON.
    ToggleShuffle,
    /// Toggle repeat, answered as JSON.
    ToggleRepeat,
    /// Toggle between play and pause; no content.
    PlayPause,
    /// Resume playback; no content.
    Play,
    /// Play the given items: a kind and a comma-separated identifier list.
    PlayItems { kind: String, ids: Vec<String> },
    /// Pause playback; no content.
    Pause,
    /// Stop playback; no content.
    StopPlayback,
    /// Skip to the next song; no content.
    Next,
    /// Return to the previous song; no content.
    Previous,
    /// Seek to the given position; no content.
    SeekTo { t: u32 },
    /// Show the player window; no content.
    Show,
    /// Hide the player window; no content.
    Hide,
    /// Album metadata, answered as JSON.
    Album { id: String },
    /// Song metadata, answered as JSON.
    Song { id: String },
    /// Set the playback volume, given in decimal text; no content.
    SetVolume { volume: String },
    /// The current playback volume, answered as JSON.
    GetVolume,
    /// Set the rating of the current song; no content or an error.
    SetRating { rating: i8 },
    /// Set a rating through the catalogue interface; see
    /// `response::set_rating_outcome` for the answer policy.
    SetRatingApi { content_type: String, id: u64, rating: i8 },
    /// Read a rating through the catalogue interface; see
    /// `response::get_rating_outcome` for the answer policy.
    GetRating { content_type: String, id: u64 },
}

/// The abstract form of a command: its parameters as views.
#[allow(inconsistent_fields)]
pub enum CommandModel {
    Active,
    AuthCallback,
    CurrentPlayingSong,
    AddToLibrary,
    IsPlaying,
    ToggleAutoplay,
    ToggleShuffle,
    ToggleRepeat,
    PlayPause,
    Play,
    PlayItems { kind: Seq<char>, ids: Seq<Seq<char>> },
    Pause,
    StopPlayback,
    Next,
    Previous,
    SeekTo { t: u32 },
    Show,
    Hide,
    Album { id: Seq<char> },
    Song { id: Seq<char> },
    SetVolume { volume: Seq<char> },
    GetVolume,
    SetRating { rating: i8 },
    SetRatingApi { content_type: Seq<char>, id: u64, rating: i8 },
    GetRating { content_type: Seq<char>, id: u64 },
}

impl View for Command {
    type V = CommandModel;

    open spec fn view(&self) -> CommandModel {
        match self {
            Command::Active => CommandModel::Active,
            Command::AuthCallback => CommandModel::AuthCallback,
            Command::CurrentPlayingSong => CommandModel::CurrentPlayingSong,
            Command::AddToLibrary => CommandModel::AddToLibrary,
            Command::IsPlaying => CommandModel::IsPlaying,
            Command::ToggleAutoplay => CommandModel::ToggleAutoplay,
            Command::ToggleShuffle => CommandModel::ToggleShuffle,
            Command::ToggleRepeat => CommandModel::ToggleRepeat,
            Command::PlayPause => CommandModel::PlayPause,
            Command::Play => CommandModel::Play,
            Command::PlayItems { kind, ids } => CommandModel::PlayItems {
                kind: kind@,
                ids: string_views(ids@),
            },
            Command::Pause => CommandModel::Pause,
            Command::StopPlayback => CommandModel::StopPlayback,
            Command::Next => CommandModel::Next,
            Command::Previous => CommandModel::Previous,
            Command::SeekTo { t } => CommandModel::SeekTo { t: *t },
            Command::Show => CommandModel::Show,
            Command::Hide => CommandModel::Hide,
            Command::Album { id } => CommandModel::Album { id: id@ },
            Command::Song { id } => CommandModel::Song { id: id@ },
            Command::SetVolume { volume } => CommandModel::SetVolume { volume: volume@ },
            Command::GetVolume => CommandModel::GetVolume,
            Command::SetRating { rating } => CommandModel::SetRating { rating: *rating },
            Command::SetRatingApi { content_type, id, rating } => CommandModel::SetRatingApi {
                content_type: content_type@,
                id: *id,
                rating: *rating,
            },
            Command::GetRating { content_type, id } => CommandModel::GetRating {
                content_type: content_type@,
                id: *id,
            },
        }
    }
}

/// The three toggle routes, reachable by GET and by POST.
pub open spec fn route_toggle(name: Seq<char>) -> Option<CommandModel> {
    if name == "toggleAutoplay"@ {
        Some(CommandModel::ToggleAutoplay)
    } else if name == "toggleShuffle"@ {
        Some(CommandModel::ToggleShuffle)
    } else if name == "toggleRepeat"@ {
        Some(CommandModel::ToggleRepeat)
    } else {
        None
    }
}

/// The GET routes of one path segment.
pub open spec fn route_get2(a: Seq<char>) -> Option<CommandModel> {
    if a == "active"@ {
        Some(CommandModel::Active)
    } else if a == "last_fm_auth_callback"@ {
        Some(CommandModel::AuthCallback)
    } else if a == "currentPlayingSong"@ {
        Some(CommandModel::CurrentPlayingSong)
    } else if a == "addToLibrary"@ {
        Some(CommandModel::AddToLibrary)
    } else if a == "isPlaying"@ {
        Some(CommandModel::IsPlaying)
    } else if route_toggle(a) is Some {
        route_toggle(a)
    } else if a == "playPause"@ {
        Some(CommandModel::PlayPause)
    } else if a == "play"@ {
        Some(CommandModel::Play)
    } else if a == "pause"@ {
        Some(CommandModel::Pause)
    } else if a == "stop"@ {
        Some(CommandModel::StopPlayback)
    } else if a == "next"@ {
        Some(CommandModel::Next)
    } else if a == "previous"@ {
        Some(CommandModel::Previous)
    } else if a == "show"@ {
        Some(CommandModel::Show)
    } else if a == "hide"@ {
        Some(CommandModel::Hide)
    } else if a == "audio"@ {
        Some(CommandModel::GetVolume)
    } else {
        None
    }
}

/// The GET routes of two path segments.
pub open spec fn route_get3(a: Seq<char>, b: Seq<char>) -> Option<CommandModel> {
    if a == "seekto"@ {
        match parse_u32_spec(b) {
            Some(t) => Some(CommandModel::SeekTo { t }),
            None => None,
        }
    } else if a == "album"@ {
        Some(CommandModel::Album { id: b })
    } else if a == "song"@ {
        Some(CommandModel::Song { id: b })
    } else if a == "audio"@ {
        if is_decimal(b) {
            Some(CommandModel::SetVolume { volume: b })
        } else {
            None
        }
    } else {
        None
    }
}

/// The GET routes of three path segments.
pub open spec fn route_get4(a: Seq<char>, b: Seq<char>, c: Seq<char>) -> Option<CommandModel> {
    if a == "play"@ {
        Some(CommandModel::PlayItems { kind: b, ids: split_at_char(c, ',') })
    } else if a == "rating"@ {
        match parse_u64_spec(c) {
            Some(id) => Some(CommandModel::GetRating { content_type: b, id }),
            None => None,
        }
    } else {
        None
    }
}

/// The GET routes over the split path.
pub open spec fn route_get(segs: Seq<Seq<char>>) -> Option<CommandModel> {
    if segs.len() == 2 {
        route_get2(segs[1])
    } else if segs.len() == 3 {
        route_get3(segs[1], segs[2])
    } else if segs.len() == 4 {
        route_get4(segs[1], segs[2], segs[3])
    } else {
        None
    }
}

/// The POST routes over the split path: the toggles.
pub open spec fn route_post(segs: Seq<Seq<char>>) -> Option<CommandModel> {
    if segs.len() == 2 {
        route_toggle(segs[1])
    } else {
        None
    }
}

/// The PUT routes over the split path: the two rating mutations.
pub open spec fn route_put(segs: Seq<Seq<char>>) -> Option<CommandModel> {
    if segs.len() == 3 && segs[1] == "setRating"@ {
        match parse_i8_spec(segs[2]) {
            Some(rating) => Some(CommandModel::SetRating { rating }),
            None => None,
        }
    } else if segs.len() == 5 && segs[1] == "rating"@ {
        match (parse_u64_spec(segs[3]), parse_i8_spec(segs[4])) {
            (Some(id), Some(rating)) => Some(
                CommandModel::SetRatingApi { content_type: segs[2], id, rating },
            ),
            _ => None,
        }
    } else {
        None
    }
}

/// The route table: what a method and path name, or nothing, in which case
/// the server answers 404.  The path is the request URL without its query.
pub open spec fn route_of(method: Seq<char>, path: Seq<char>) -> Option<CommandModel> {
    let segs = split_at_char(path, '/');
    if segs.len() < 2 || segs[0] != Seq::<char>::empty() {
        None
    } else if method == "GET"@ {
        route_get(segs)
    } else if method == "POST"@ {
        route_post(segs)
    } else if method == "PUT"@ {
        route_put(segs)
    } else {
        None
    }
}

/// An unmatched path is dispatched to no command under any method: the
/// server answers it with status 404.
pub proof fn lemma_unmatched_path(method: Seq<char>)
    ensures
        route_of(method, "/doesNotExist"@) is None,
{
    reveal_strlit("/doesNotExist");
    reveal_strlit("doesNotExist");
    let name = "doesNotExist"@;
    assert(name.len() == 12);
    assert forall|i: int| 0 <= i < name.len() implies name[i] != '/' by {
        if i == 0 {
            assert(name[0] == 'd');
        } else if i == 1 {
            assert(name[1] == 'o');
        } else if i == 2 {
            assert(name[2] == 'e');
        } else if i == 3 {
            assert(name[3] == 's');
        } else if i == 4 {
            assert(name[4] == 'N');
        } else if i == 5 {
            assert(name[5] == 'o');
        } else if i == 6 {
            assert(name[6] == 't');
        } else if i == 7 {
            assert(name[7] == 'E');
        } else if i == 8 {
            assert(name[8] == 'x');
        } else if i == 9 {
            assert(name[9] == 'i');
        } else if i == 10 {
            assert(name[10] == 's');
        } else {
            assert(name[11] == 't');
        }
    }
    assert("/doesNotExist"@ =~= seq!['/'] + name);
    crate::parse::lemma_split_lead_sep(name, '/');
    let segs = split_at_char("/doesNotExist"@, '/');
    assert(segs =~= seq![Seq::<char>::empty(), name]);
    assert(segs.len() == 2 && segs[1] == name);
    reveal_strlit("active");
    reveal_strlit("last_fm_auth_callback");
    reveal_strlit("currentPlayingSong");
    reveal_strlit("addToLibrary");
    reveal_strlit("isPlaying");
    reveal_strlit("toggleAutoplay");
    reveal_strlit("toggleShuffle");
    reveal_strlit("toggleRepeat");
    reveal_strlit("playPause");
    reveal_strlit("play");
    reveal_strlit("pause");
    reveal_strlit("stop");
    reveal_strlit("next");
    reveal_strlit("previous");
    reveal_strlit("show");
    reveal_strlit("hide");
    reveal_strlit("audio");
    assert(name != "addToLibrary"@) by {
        assert(name[0] == 'd');
        assert("addToLibrary"@[0] == 'a');
    }
    assert(name != "toggleRepeat"@) by {
        assert(name[0] == 'd');
        assert("toggleRepeat"@[0] == 't');
    }
    assert(route_get2(name) is None);
    assert(route_toggle(name) is None);
}

/// The GET routes of one path segment.
fn match_get2(a: &Vec<char>) -> (r: Option<Command>)
    ensures
        match r {
            Some(c) => route_get2(a@) == Some(c@),
            None => route_get2(a@) is None,
        },
{
    if str_eq_chars("active", a) {
        Some(Command::Active)
    } else if str_eq_chars("last_fm_auth_callback", a) {
        Some(Command::AuthCallback)
    } else if str_eq_chars("currentPlayingSong", a) {
        Some(Command::CurrentPlayingSong)
    } else if str_eq_chars("addToLibrary", a) {
        Some(Command::AddToLibrary)
    } else if str_eq_chars("isPlaying", a) {
        Some(Command::IsPlaying)
    } else if str_eq_chars("toggleAutoplay", a) {
        Some(Command::ToggleAutoplay)
    } else if str_eq_chars("toggleShuffle", a) {
        Some(Command::ToggleShuffle)
    } else if str_eq_chars("toggleRepeat", a) {
        Some(Command::ToggleRepeat)
    } else if str_eq_chars("playPause", a) {
        Some(Command::PlayPause)
    } else if str_eq_chars("play", a) {
        Some(Command::Play)
    } else if str_eq_chars("pause", a) {
        Some(Command::Pause)
    } else if str_eq_chars("stop", a) {
        Some(Command::StopPlayback)
    } else if str_eq_chars("next", a) {
        Some(Command::Next)
    } else if str_eq_chars("previous", a) {
        Some(Command::Previous)
    } else if str_eq_chars("show", a) {
        Some(Command::Show)
    } else if str_eq_chars("hide", a) {
        Some(Command::Hide)
    } else if str_eq_chars("audio", a) {
        Some(Command::GetVolume)
    } else {
        None
    }
}

/// The POST routes: the toggles.
fn match_toggle(a: &Vec<char>) -> (r: Option<Command>)
    ensures
        match r {
            Some(c) => route_toggle(a@) == Some(c@),
            None => route_toggle(a@) is None,
        },
{
    if str_eq_chars("toggleAutoplay", a) {
        Some(Command::ToggleAutoplay)
    } else if str_eq_chars("toggleShuffle", a) {
        Some(Command::ToggleShuffle)
    } else if str_eq_chars("toggleRepeat", a) {
        Some(Command::ToggleRepeat)
    } else {
        None
    }
}

/// The GET routes of two path segments.
fn match_get3(a: &Vec<char>, b: &Vec<char>) -> (r: Option<Command>)
    ensures
        match r {
            Some(c) => route_get3(a@, b@) == Some(c@),
            None => route_get3(a@, b@) is None,
        },
{
    if str_eq_chars("seekto", a) {
        match parse_u32(b) {
            Some(t) => Some(Command::SeekTo { t }),
            None => None,
        }
    } else if str_eq_chars("album", a) {
        Some(Command::Album { id: string_of(b) })
    } else if str_eq_chars("song", a) {
        Some(Command::Song { id: string_of(b) })
    } else if str_eq_chars("audio", a) {
        if check_decimal(b) {
            Some(Command::SetVolume { volume: string_of(b) })
        } else {
            None
        }
    } else {
        None
    }
}

/// The GET routes of three path segments.
fn match_get4(a: &Vec<char>, b: &Vec<char>, c: &Vec<char>) -> (r: Option<Command>)
    ensures
        match r {
            Some(cmd) => route_get4(a@, b@, c@) == Some(cmd@),
            None => route_get4(a@, b@, c@) is None,
        },
{
    if str_eq_chars("play", a) {
        let parts = split_char(c, ',');
        let ids = strings_of(&parts);
        Some(Command::PlayItems { kind: string_of(b), ids })
    } else if str_eq_chars("rating", a) {
        match parse_u64(c) {
            Some(id) => Some(Command::GetRating { content_type: string_of(b), id }),
            None => None,
        }
    } else {
        None
    }
}

/// Maps one request to the command its route names, or to nothing for an
/// unmatched route.  `path` is the request URL without its query.
pub fn match_route(method: &str, path: &str) -> (r: Option<Command>)
    ensures
        match r {
            Some(c) => route_of(method@, path@) == Some(c@),
            None => route_of(method@, path@) is None,
        },
{
    let m = chars_of(method);
    let p = chars_of(path);
    let segs = split_char(&p, '/');
    let ghost sm = split_at_char(path@, '/');
    assert(views_of(segs@) == sm);
    assert(forall|i: int| 0 <= i < segs@.len() ==> #[trigger] sm[i] == segs@[i]@);
    if segs.len() < 2 {
        return None;
    }
    if segs[0].len() != 0 {
        return None;
    }
    assert(segs@[0]@ =~= Seq::<char>::empty());
    let is_get = str_eq_chars("GET", &m);
    if is_get {
        if segs.len() == 2 {
            match_get2(&segs[1])
        } else if segs.len() == 3 {
            match_get3(&segs[1], &segs[2])
        } else if segs.len() == 4 {
            match_get4(&segs[1], &segs[2], &segs[3])
        } else {
            None
        }
    } else if str_eq_chars("POST", &m) {
        if segs.len() == 2 {
            match_toggle(&segs[1])
        } else {
            None
        }
    } else if str_eq_chars("PUT", &m) {
        if segs.len() == 3 && str_eq_chars("setRating", &segs[1]) {
            match parse_i8(&segs[2]) {
                Some(rating) => Some(Command::SetRating { rating }),
                None => None,
            }
        } else if segs.len() == 5 && str_eq_chars("rating", &segs[1]) {
            match (parse_u64(&segs[3]), parse_i8(&segs[4])) {
                (Some(id), Some(rating)) => Some(
                    Command::SetRatingApi { content_type: string_of(&segs[2]), id, rating },
                ),
                _ => None,
            }
        } else {
            None
        }
    } else {
        None
    }
}

} // verus!
