use cider_rpc::router::match_route;
use cider_rpc::router::Command;

#[test]
fn get_active_matches() {
    assert!(matches!(match_route("GET", "/active"), Some(Command::Active)));
}

#[test]
fn get_auth_callback_matches() {
    assert!(matches!(
        match_route("GET", "/last_fm_auth_callback"),
        Some(Command::AuthCallback)
    ));
}

#[test]
fn get_current_playing_song_matches() {
    assert!(matches!(
        match_route("GET", "/currentPlayingSong"),
        Some(Command::CurrentPlayingSong)
    ));
}

#[test]
fn get_add_to_library_matches() {
    assert!(matches!(
        match_route("GET", "/addToLibrary"),
        Some(Command::AddToLibrary)
    ));
}

#[test]
fn get_is_playing_matches() {
    assert!(matches!(
        match_route("GET", "/isPlaying"),
        Some(Command::IsPlaying)
    ));
}

#[test]
fn toggles_match_under_get_and_post() {
    for method in ["GET", "POST"] {
        assert!(matches!(
            match_route(method, "/toggleAutoplay"),
            Some(Command::ToggleAutoplay)
        ));
        assert!(matches!(
            match_route(method, "/toggleShuffle"),
            Some(Command::ToggleShuffle)
        ));
        assert!(matches!(
            match_route(method, "/toggleRepeat"),
            Some(Command::ToggleRepeat)
        ));
    }
}

#[test]
fn transport_controls_match() {
    assert!(matches!(match_route("GET", "/playPause"), Some(Command::PlayPause)));
    assert!(matches!(match_route("GET", "/play"), Some(Command::Play)));
    assert!(matches!(match_route("GET", "/pause"), Some(Command::Pause)));
    assert!(matches!(match_route("GET", "/stop"), Some(Command::StopPlayback)));
    assert!(matches!(match_route("GET", "/next"), Some(Command::Next)));
    assert!(matches!(match_route("GET", "/previous"), Some(Command::Previous)));
    assert!(matches!(match_route("GET", "/show"), Some(Command::Show)));
    assert!(matches!(match_route("GET", "/hide"), Some(Command::Hide)));
}

#[test]
fn play_items_splits_ids_on_commas() {
    match match_route("GET", "/play/album/a1,b2,c3") {
        Some(Command::PlayItems { kind, ids }) => {
            assert_eq!(kind, "album");
            assert_eq!(ids, vec!["a1".to_string(), "b2".to_string(), "c3".to_string()]);
        }
        other => panic!("unexpected match: {:?}", other.is_some()),
    }
}

#[test]
fn play_items_single_id() {
    match match_route("GET", "/play/song/x") {
        Some(Command::PlayItems { kind, ids }) => {
            assert_eq!(kind, "song");
            assert_eq!(ids, vec!["x".to_string()]);
        }
        _ => panic!("route must match"),
    }
}

#[test]
fn seekto_parses_position() {
    match match_route("GET", "/seekto/42") {
        Some(Command::SeekTo { t }) => assert_eq!(t, 42),
        _ => panic!("route must match"),
    }
}

#[test]
fn seekto_accepts_plus_sign() {
    match match_route("GET", "/seekto/+7") {
        Some(Command::SeekTo { t }) => assert_eq!(t, 7),
        _ => panic!("route must match"),
    }
}

#[test]
fn seekto_rejects_non_numbers_and_overflow() {
    assert!(match_route("GET", "/seekto/abc").is_none());
    assert!(match_route("GET", "/seekto/").is_none());
    assert!(match_route("GET", "/seekto/-1").is_none());
    assert!(match_route("GET", "/seekto/4294967295").is_some());
    assert!(match_route("GET", "/seekto/4294967296").is_none());
}

#[test]
fn album_and_song_carry_their_id() {
    match match_route("GET", "/album/al.123") {
        Some(Command::Album { id }) => assert_eq!(id, "al.123"),
        _ => panic!("route must match"),
    }
    match match_route("GET", "/song/so.456") {
        Some(Command::Song { id }) => assert_eq!(id, "so.456"),
        _ => panic!("route must match"),
    }
}

#[test]
fn audio_routes_match() {
    assert!(matches!(match_route("GET", "/audio"), Some(Command::GetVolume)));
    match match_route("GET", "/audio/0.5") {
        Some(Command::SetVolume { volume }) => assert_eq!(volume, "0.5"),
        _ => panic!("route must match"),
    }
    match match_route("GET", "/audio/-1.5") {
        Some(Command::SetVolume { volume }) => assert_eq!(volume, "-1.5"),
        _ => panic!("route must match"),
    }
    match match_route("GET", "/audio/1.") {
        Some(Command::SetVolume { volume }) => assert_eq!(volume, "1."),
        _ => panic!("route must match"),
    }
}

#[test]
fn audio_rejects_malformed_volumes() {
    assert!(match_route("GET", "/audio/abc").is_none());
    assert!(match_route("GET", "/audio/.").is_none());
    assert!(match_route("GET", "/audio/1.2.3").is_none());
    assert!(match_route("GET", "/audio/-").is_none());
}

#[test]
fn set_rating_parses_signed_ratings() {
    match match_route("PUT", "/setRating/-1") {
        Some(Command::SetRating { rating }) => assert_eq!(rating, -1),
        _ => panic!("route must match"),
    }
    match match_route("PUT", "/setRating/-128") {
        Some(Command::SetRating { rating }) => assert_eq!(rating, -128),
        _ => panic!("route must match"),
    }
    match match_route("PUT", "/setRating/-0") {
        Some(Command::SetRating { rating }) => assert_eq!(rating, 0),
        _ => panic!("route must match"),
    }
    assert!(match_route("PUT", "/setRating/128").is_none());
    assert!(match_route("PUT", "/setRating/-129").is_none());
    assert!(match_route("PUT", "/setRating/x").is_none());
}

#[test]
fn rating_api_routes_match() {
    match match_route("PUT", "/rating/song/123/5") {
        Some(Command::SetRatingApi { content_type, id, rating }) => {
            assert_eq!(content_type, "song");
            assert_eq!(id, 123);
            assert_eq!(rating, 5);
        }
        _ => panic!("route must match"),
    }
    match match_route("GET", "/rating/album/9000") {
        Some(Command::GetRating { content_type, id }) => {
            assert_eq!(content_type, "album");
            assert_eq!(id, 9000);
        }
        _ => panic!("route must match"),
    }
    assert!(match_route("PUT", "/rating/song/abc/5").is_none());
    assert!(match_route("PUT", "/rating/song/123/999").is_none());
    assert!(match_route("GET", "/rating/song/-1").is_none());
}

#[test]
fn unmatched_path_matches_nothing_under_any_method() {
    for method in ["GET", "POST", "PUT", "DELETE", "PATCH", "HEAD"] {
        assert!(match_route(method, "/doesNotExist").is_none());
    }
}

#[test]
fn wrong_method_matches_nothing() {
    assert!(match_route("POST", "/active").is_none());
    assert!(match_route("PUT", "/play").is_none());
    assert!(match_route("DELETE", "/toggleShuffle").is_none());
    assert!(match_route("GET", "/setRating/1").is_none());
    assert!(match_route("POST", "/rating/song/1/1").is_none());
}

#[test]
fn malformed_paths_match_nothing() {
    assert!(match_route("GET", "active").is_none());
    assert!(match_route("GET", "").is_none());
    assert!(match_route("GET", "/").is_none());
    assert!(match_route("GET", "/play/").is_none());
    assert!(match_route("GET", "/active/extra").is_none());
    assert!(match_route("GET", "//active").is_none());
}
