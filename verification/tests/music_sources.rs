use meibe_bot::error::BotError;
use meibe_bot::music::error::MusicError;
use meibe_bot::music::types::{track_info_from_metadata, QueryType};
use meibe_bot::music::{classify_query, match_query, plan_play, PlayStep, QueryMatch};
use meibe_bot::sources::spotify::{build_keyword, extract_media, join_artists, media_from_captures, next_playlist_offset, playlist_keywords, PlaylistTrack, SpotifyMedia};
use meibe_bot::sources::ytdl::{first_result, output_lines, playlist_args, query_args, search_args, Ytdl};

fn track(m: SpotifyMedia) -> Option<String> {
    match m {
        SpotifyMedia::Track(id) => Some(id),
        SpotifyMedia::Playlist(_) => None,
    }
}

fn kind(m: QueryMatch) -> (String, String) {
    match m {
        QueryMatch::Spotify(s) => ("spotify".to_string(), s),
        QueryMatch::Ready(QueryType::Keywords(s)) => ("words".to_string(), s),
        QueryMatch::Ready(QueryType::TrackLink(s)) => ("track".to_string(), s),
        QueryMatch::Ready(QueryType::PlaylistLink(s)) => ("playlist".to_string(), s),
        QueryMatch::Ready(QueryType::KeywordsList(_)) => ("list".to_string(), String::new()),
    }
}

#[test]
fn queries_are_classified() {
    let (k, s) = kind(match_query("never gonna give you up".to_string()).ok().unwrap());
    assert_eq!((k.as_str(), s.as_str()), ("words", "never gonna give you up"));
    let url = "https://www.youtube.com/watch?v=CHENRaquRHo&list=PLDisKgcnAC4SqX0mi1J5_gd7-hrIS5yJp";
    let (k, s) = kind(match_query(url.to_string()).ok().unwrap());
    assert_eq!((k.as_str(), s.as_str()), ("playlist", url));
    let url = "https://www.youtube.com/watch?v=P4bKZT_Eg4A";
    let (k, s) = kind(match_query(url.to_string()).ok().unwrap());
    assert_eq!((k.as_str(), s.as_str()), ("track", url));
    let (k, s) = kind(match_query("https://open.spotify.com/track/6tVahG14lCjexVQnYWKgwF".to_string()).ok().unwrap());
    assert_eq!((k.as_str(), s.as_str()), ("spotify", "https://open.spotify.com/track/6tVahG14lCjexVQnYWKgwF"));
    assert!(matches!(match_query("http://127.0.0.1/song".to_string()), Err(MusicError::InvalidLink)));
}

#[test]
fn classify_from_given_parse() {
    let r = classify_query("q".to_string(), Some(("https://open.spotify.com/x".to_string(), Some("open.spotify.com".to_string()))));
    let (k, s) = kind(r.ok().unwrap());
    assert_eq!((k.as_str(), s.as_str()), ("spotify", "https://open.spotify.com/x"));
    assert!(matches!(classify_query("q".to_string(), Some(("x".to_string(), None))), Err(MusicError::InvalidLink)));
    let (k, _) = kind(classify_query("q".to_string(), None).ok().unwrap());
    assert_eq!(k, "words");
}

#[test]
fn play_plans() {
    match plan_play(QueryType::TrackLink("u".to_string()), 0) {
        PlayStep::Enqueue { url, announce } => {
            assert_eq!(url, "u");
            assert!(!announce);
        }
        _ => panic!("expected a track"),
    }
    match plan_play(QueryType::Keywords("k".to_string()), 2) {
        PlayStep::Search { keywords, announce } => {
            assert_eq!(keywords, "k");
            assert!(announce);
        }
        _ => panic!("expected a search"),
    }
    assert!(matches!(plan_play(QueryType::PlaylistLink("p".to_string()), 5), PlayStep::EnqueuePlaylist(ref p) if p == "p"));
}

#[test]
fn get_track_keywords_text() {
    let artists = join_artists(&vec!["Bring Me The Horizon".to_string(), "AURORA".to_string()]);
    assert_eq!(artists, "Bring Me The Horizon AURORA");
    assert_eq!(
        "Bring Me The Horizon AURORA - liMOusIne (feat. AURORA) \\\"topic\\\"",
        build_keyword(&artists, "liMOusIne (feat. AURORA)")
    );
    assert_eq!(join_artists(&vec![]), "");
}

#[test]
fn spotify_track_ids() {
    assert_eq!(track(extract_media("https://open.spotify.com/track/6tVahG14lCjexVQnYWKgwF").ok().unwrap()).unwrap(), "6tVahG14lCjexVQnYWKgwF");
    assert_eq!(track(extract_media("https://open.spotify.com/track/6tVahG14lCjexVQnYWKgwF?si=abc").ok().unwrap()).unwrap(), "6tVahG14lCjexVQnYWKgwF");
    let e = extract_media("https://open.spotify.com/album/1zOSRkS0kFrExnZplQdbo9?si=37904fc5c27e47c8").err().unwrap();
    assert!(matches!(e, BotError::Generic(ref s) if s == "Invalid spotify query"));
    assert!(extract_media("https://example.com").is_err());
    assert!(media_from_captures(None).is_err());
    assert_eq!(track(media_from_captures(Some(vec![Some("track".to_string()), Some("id1".to_string())])).ok().unwrap()).unwrap(), "id1");
    assert!(media_from_captures(Some(vec![Some("album".to_string()), Some("id1".to_string())])).is_err());
    assert!(media_from_captures(Some(vec![Some("track".to_string()), None])).is_err());
}

#[test]
fn spotify_playlist_ids() {
    let m = extract_media("https://open.spotify.com/playlist/1zOSRkS0kFrExnZplQdbo9?si=37904fc5c27e47c8").ok().unwrap();
    assert!(matches!(m, SpotifyMedia::Playlist(ref id) if id == "1zOSRkS0kFrExnZplQdbo9"));
    let m = media_from_captures(Some(vec![Some("playlist".to_string()), Some("p1".to_string())])).ok().unwrap();
    assert!(matches!(m, SpotifyMedia::Playlist(ref id) if id == "p1"));
}

#[test]
fn ytdl_command_lines() {
    assert_eq!(Ytdl::new().program(), "yt-dlp");
    assert_eq!(Ytdl::new_program("youtube-dl").program(), "youtube-dl");
    assert_eq!(playlist_args("https://p"), vec!["-j", "--flat-playlist", "-no-abort-on-error", "https://p"]);
    assert_eq!(query_args("https://v"), vec!["-j", "https://v"]);
    assert_eq!(
        search_args("lofi beats", None),
        vec!["-j", "--flat-playlist", "--skip-download", "--quiet", "--ignore-errors", "ytsearch1:'lofi beats'"]
    );
    assert_eq!(search_args("x", Some(25))[5], "ytsearch25:'x'");
    let d = meibe_bot::downloaders::ytdl::Ytdl::new();
    assert_eq!(d.program(), "yt-dlp");
    assert_eq!(d.playlist_items_args("pl"), vec!["-j", "--flat-playlist", "-no-abort-on-error", "pl"]);
}

#[test]
fn output_is_split_into_lines() {
    assert_eq!(output_lines("{\"url\":1}\n{\"url\":2}\n"), vec!["{\"url\":1}", "{\"url\":2}"]);
    assert_eq!(output_lines("a\r\nb"), vec!["a", "b"]);
    assert_eq!(output_lines("a\n\nb\r"), vec!["a", "", "b\r"]);
    assert!(output_lines("").is_empty());
    let text = "one\r\ntwo\n\nthree";
    let std_lines: Vec<&str> = text.lines().collect();
    assert_eq!(output_lines(text), std_lines);
}

#[test]
fn search_song_first_result() {
    assert_eq!(first_result(vec![3, 4]).ok(), Some(3));
    assert!(matches!(first_result::<u8>(vec![]), Err(MusicError::SearchNotFound)));
}

#[test]
fn track_metadata_defaults() {
    let t = track_info_from_metadata("u".to_string(), None, None, None, Some(5));
    assert_eq!(t.title, "Unknown");
    assert_eq!(t.artist, "");
    assert_eq!(t.thumbnail, "");
    assert_eq!(t.duration, Some(5));
}

#[test]
fn music_error_texts() {
    assert_eq!(MusicError::SearchNotFound.message(), "No such bullshit found");
    assert_eq!(MusicError::InvalidLink.message(), "Invalid link");
    assert!(MusicError::TrackFetch.message().starts_with("Unable to fetch track."));
    assert_eq!(BotError::NotInVoice.message(), "You have to be in a voice channel");
    assert_eq!(BotError::GuildOnly.message(), "Command can be used only on a server");
    assert_eq!(BotError::ApiKeyMissing("SPOTIFY_CLIENT_ID".to_string()).message(), "Missing API key: SPOTIFY_CLIENT_ID");
    assert_eq!(BotError::AuthError.message(), "The bot is not signed in to the service");
}

#[test]
fn playlist_tracks_give_search_words() {
    let items = vec![
        Some(PlaylistTrack { artists: vec!["A".to_string(), "B".to_string()], title: "Song".to_string() }),
        None,
        Some(PlaylistTrack { artists: vec!["C".to_string()], title: "Other".to_string() }),
    ];
    assert_eq!(
        playlist_keywords(&items),
        vec!["A B - Song \\\"topic\\\"".to_string(), "C - Other \\\"topic\\\"".to_string()]
    );
    assert!(playlist_keywords(&vec![None]).is_empty());
}

#[test]
fn playlist_paging_stops_at_the_end() {
    assert_eq!(next_playlist_offset(0, 50, true), Some(50));
    assert_eq!(next_playlist_offset(50, 20, false), None);
    assert_eq!(next_playlist_offset(50, 0, true), None);
    assert_eq!(next_playlist_offset(u32::MAX - 10, 50, true), None);
    assert_eq!(next_playlist_offset(u32::MAX - 50, 50, true), Some(u32::MAX));
}
