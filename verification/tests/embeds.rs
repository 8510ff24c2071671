use meibe_bot::api::coomer::types::CreatorInfo;
use meibe_bot::messages::factory::{
    create_coomer_image_embed, create_now_playing_embed, create_queue_list_embed, create_queued_track_embed,
    create_queued_tracks_embed, LoopState, TrackState,
};
use meibe_bot::messages::message::Colour;
use meibe_bot::music::types::TrackInfo;

fn track(artist: &str, title: &str, url: &str, secs: Option<u64>) -> TrackInfo {
    TrackInfo {
        url: url.to_string(),
        artist: artist.to_string(),
        title: title.to_string(),
        duration: secs,
        thumbnail: format!("{url}/thumb"),
    }
}

#[test]
fn full_name_joins_artist_and_title() {
    assert_eq!(track("Daft Punk", "One More Time", "u", None).full_name(), "Daft Punk - One More Time");
}

#[test]
fn now_playing_with_known_length() {
    let info = track("A", "B", "https://x", Some(200));
    let state = TrackState { position_secs: 50, loops: LoopState::Finite(2) };
    let e = create_now_playing_embed(&info, &state, "brainrot");
    assert_eq!(e.author.as_ref().unwrap().name, "🎧 Playing right now");
    assert_eq!(e.title.as_deref(), Some("A - B"));
    assert_eq!(e.url.as_deref(), Some("https://x"));
    assert_eq!(e.thumbnail.as_deref(), Some("https://x/thumb"));
    assert_eq!(e.colour, Some(Colour::meibe_pink()));
    assert_eq!(e.fields.len(), 3);
    // 15 * 50 / 200 = 3: three filled cells, the knob, eleven empty cells.
    assert_eq!(e.fields[0].value, "**◁  Ⅱ  ▷    ━━━⬤───────────    00:50 / 03:20**");
    assert_eq!(e.fields[1].value, "🔁 Remaining loops: 2");
    assert_eq!(e.fields[2].value, "**brainrot**");
    assert_eq!(e.fields[0].name, "");
}

#[test]
fn now_playing_position_wraps_on_loop() {
    let info = track("A", "B", "u", Some(100));
    let a = create_now_playing_embed(&info, &TrackState { position_secs: 30, loops: LoopState::Infinite }, "c");
    let b = create_now_playing_embed(&info, &TrackState { position_secs: 130, loops: LoopState::Infinite }, "c");
    assert_eq!(a.fields[0].value, b.fields[0].value);
    assert_eq!(a.fields[1].value, "🔁 Infinite looping");
}

#[test]
fn now_playing_without_loops_or_length() {
    let info = track("A", "B", "u", Some(60));
    let e = create_now_playing_embed(&info, &TrackState { position_secs: 0, loops: LoopState::Finite(0) }, "c");
    assert_eq!(e.fields.len(), 2);
    assert_eq!(e.fields[0].value, "**◁  Ⅱ  ▷    ⬤──────────────    00:00 / 01:00**");
    let info = track("A", "B", "u", None);
    let e = create_now_playing_embed(&info, &TrackState { position_secs: 5, loops: LoopState::Infinite }, "c");
    assert!(e.fields.is_empty());
}

#[test]
fn queued_track_embed() {
    let e = create_queued_track_embed(track("A", "B", "u", Some(3725)), "hey");
    assert_eq!(e.author.as_ref().unwrap().name, "🚀 Added to queue");
    assert_eq!(e.fields.len(), 2);
    assert_eq!(e.fields[0].value, "**Duration: 1:02:05**");
    assert_eq!(e.fields[1].value, "**hey**");
    let e = create_queued_track_embed(track("A", "B", "u", None), "hey");
    assert!(e.fields.is_empty());
}

#[test]
fn queued_tracks_embed() {
    let e = create_queued_tracks_embed(12, "wow");
    assert_eq!(e.author.as_ref().unwrap().name, "🚀 Added to queue 12 tracks");
    assert_eq!(e.fields.len(), 1);
    assert_eq!(e.fields[0].value, "**wow**");
    assert_eq!(e.colour, Some(Colour::meibe_pink()));
}

#[test]
fn queue_list_first_page() {
    let tracks = vec![
        track("P", "Now", "u0", Some(10)),
        track("A", "One", "u1", Some(60)),
        track("B", "Two", "u2", None),
        track("C", "Three", "u3", Some(61)),
    ];
    let e = create_queue_list_embed(tracks, 0, 2);
    assert_eq!(e.title.as_deref(), Some("🎧 Tracks Queue (1/2)"));
    assert_eq!(e.fields.len(), 3);
    assert_eq!(e.fields[0].value, "🔥 **[P - Now](u0)**");
    assert_eq!(e.fields[1].value, "1) [A - One](u1)");
    assert_eq!(e.fields[2].value, "2) [B - Two](u2)");
    assert_eq!(e.footer.as_deref(), Some("Total queue duration: 02:01"));
}

#[test]
fn queue_list_second_page_and_empty_queue() {
    let tracks = vec![
        track("P", "Now", "u0", Some(10)),
        track("A", "One", "u1", Some(60)),
        track("B", "Two", "u2", None),
        track("C", "Three", "u3", Some(61)),
    ];
    let e = create_queue_list_embed(tracks, 1, 2);
    assert_eq!(e.title.as_deref(), Some("🎧 Tracks Queue (2/2)"));
    assert_eq!(e.fields.len(), 2);
    assert_eq!(e.fields[1].value, "3) [C - Three](u3)");
    let e = create_queue_list_embed(vec![track("P", "Now", "u0", Some(10))], 0, 10);
    assert_eq!(e.title.as_deref(), Some("🎧 Tracks Queue (1/1)"));
    assert_eq!(e.fields.len(), 1);
    assert!(e.footer.is_none());
}

#[test]
fn coomer_image_embed() {
    let creator = CreatorInfo { id: "42".to_string(), name: "Ann".to_string(), service: "fansly".to_string(), favorited: 1234 };
    let e = create_coomer_image_embed(&creator, "https://img/1.png".to_string(), "https://c/42".to_string(), "https://i/42".to_string());
    assert_eq!(e.url.as_deref(), Some("https://img/1.png"));
    assert_eq!(e.image.as_deref(), Some("https://img/1.png"));
    assert_eq!(e.title.as_deref(), Some("Content"));
    let a = e.author.as_ref().unwrap();
    assert_eq!(a.name, "Ann");
    assert_eq!(a.url.as_deref(), Some("https://c/42"));
    assert_eq!(a.icon_url.as_deref(), Some("https://i/42"));
    assert_eq!(e.fields[0].name, "Service");
    assert_eq!(e.fields[0].value, "fansly");
    assert_eq!(e.fields[1].name, "Popularity");
    assert_eq!(e.fields[1].value, "1234");
}
