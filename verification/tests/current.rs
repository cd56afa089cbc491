use playback_proxy::{
    fail_current_playback, get_current_playback, show_current_playback, Artist, ArtistRecord,
    CurrentPlayback, CurrentlyPlaying, Device, DeviceType, HttpReply, PlayableItem, PlaybackState,
    ProviderReply, ReadStep, RepeatState, ReplyBody, SpotifyState, StringHashMap, Track,
    TrackRecord,
};

fn link(url: &str) -> StringHashMap<String> {
    let mut links = StringHashMap::new();
    links.insert("spotify".to_string(), url.to_string());
    links
}

fn speaker() -> Device {
    Device {
        id: Some("D1".to_string()),
        is_active: true,
        is_private_session: false,
        is_restricted: false,
        name: "Kitchen".to_string(),
        device_type: DeviceType::Speaker,
        volume_percent: Some(40),
    }
}

fn report() -> CurrentPlayback {
    CurrentPlayback {
        device: speaker(),
        repeat_state: RepeatState::Context,
        shuffle_state: true,
        progress_ms: Some(93_700),
        is_playing: true,
        item: Some(PlayableItem::Track(Some("11dFghVXANMlKmJXsNCbNl".to_string()))),
    }
}

fn record() -> TrackRecord {
    TrackRecord {
        name: "Cut To The Feeling".to_string(),
        artists: vec![ArtistRecord {
            name: "Carly Rae Jepsen".to_string(),
            external_urls: link("https://open.spotify.com/artist/6sFIWsNpZYqfjUpaCgueju"),
        }],
        album_images: vec!["first.jpg".to_string(), "second.jpg".to_string()],
        external_urls: link("https://open.spotify.com/track/11dFghVXANMlKmJXsNCbNl"),
        duration_ms: 207_959,
    }
}

fn held() -> SpotifyState<()> {
    let mut state = SpotifyState::new(());
    state.playback_status =
        Some(PlaybackState { is_playing: false, position: 5, device_id: "D0".to_string() });
    state
}

#[test]
fn an_active_track_is_fetched_first() {
    let mut state = held();
    let step = get_current_playback(&mut state, &ProviderReply::Playing(report()));
    assert_eq!(step, Ok(ReadStep::Fetch { track_id: "11dFghVXANMlKmJXsNCbNl".to_string() }));
    assert_eq!(state.playback_status, held().playback_status);
}

#[test]
fn nothing_playing_gives_the_idle_reply_and_no_snapshot() {
    let mut state = held();
    let step = get_current_playback(&mut state, &ProviderReply::Idle);
    assert_eq!(
        step,
        Ok(ReadStep::Respond(HttpReply { status: 200, json: true, body: ReplyBody::Empty }))
    );
    assert_eq!(state.playback_status, None);
}

#[test]
fn a_failed_request_is_reported_in_context_and_leaves_no_snapshot() {
    let mut state = held();
    let step =
        get_current_playback(&mut state, &ProviderReply::Failed("status code 503".to_string()));
    assert_eq!(step, Err("Error with getting playback, status code 503".to_string()));
    assert_eq!(state.playback_status, None);
}

#[test]
fn idle_and_failure_are_told_apart() {
    let idle = get_current_playback(&mut held(), &ProviderReply::Idle);
    let failed = get_current_playback(&mut held(), &ProviderReply::Failed(String::new()));
    assert!(idle.is_ok());
    assert_eq!(failed, Err("Error with getting playback, ".to_string()));
}

#[test]
fn the_fetched_track_is_shown_with_the_report() {
    let mut state = held();
    let reply = show_current_playback(&mut state, report(), &record());
    let expected = CurrentlyPlaying {
        device: speaker(),
        track: Track {
            name: "Cut To The Feeling".to_string(),
            artists: vec![Artist {
                name: "Carly Rae Jepsen".to_string(),
                url: Some("https://open.spotify.com/artist/6sFIWsNpZYqfjUpaCgueju".to_string()),
            }],
            image_url: Some("first.jpg".to_string()),
            url: Some("https://open.spotify.com/track/11dFghVXANMlKmJXsNCbNl".to_string()),
            duration: 207,
        },
        progress_secs: 93,
        shuffled: true,
        playing: true,
        repeat_status: RepeatState::Context,
    };
    assert_eq!(reply, HttpReply { status: 200, json: true, body: ReplyBody::Playing(expected) });
}

#[test]
fn showing_the_track_refreshes_the_snapshot() {
    let mut state = held();
    show_current_playback(&mut state, report(), &record());
    assert_eq!(
        state.playback_status,
        Some(PlaybackState { is_playing: true, position: 93, device_id: "D1".to_string() })
    );
}

#[test]
fn the_shown_length_is_rounded_down_and_the_image_is_the_first() {
    let mut full = record();
    full.duration_ms = 59_999;
    full.album_images = vec!["z.jpg".to_string(), "a.jpg".to_string()];
    let reply = show_current_playback(&mut held(), report(), &full);
    match reply.body {
        ReplyBody::Playing(view) => {
            assert_eq!(view.track.duration, 59);
            assert_eq!(view.track.image_url, Some("z.jpg".to_string()));
        }
        other => panic!("unexpected body {:?}", other),
    }
}

#[test]
fn a_paused_report_is_shown_as_paused() {
    let mut paused = report();
    paused.is_playing = false;
    paused.shuffle_state = false;
    paused.repeat_state = RepeatState::Off;
    paused.progress_ms = Some(0);
    let reply = show_current_playback(&mut held(), paused, &record());
    match reply.body {
        ReplyBody::Playing(view) => {
            assert!(!view.playing);
            assert!(!view.shuffled);
            assert_eq!(view.repeat_status, RepeatState::Off);
            assert_eq!(view.progress_secs, 0);
        }
        other => panic!("unexpected body {:?}", other),
    }
}

#[test]
fn a_failed_track_fetch_is_reported_in_context_and_leaves_no_snapshot() {
    let mut state = held();
    let step = get_current_playback(&mut state, &ProviderReply::Playing(report()));
    assert_eq!(step, Ok(ReadStep::Fetch { track_id: "11dFghVXANMlKmJXsNCbNl".to_string() }));
    let message = fail_current_playback(&mut state, "http error: status code 404");
    assert_eq!(message, "Error with getting playback, http error: status code 404");
    assert_eq!(state.playback_status, None);
}

#[test]
fn a_failed_track_fetch_keeps_the_client() {
    let mut state = SpotifyState::new("client".to_string());
    assert_eq!(fail_current_playback(&mut state, ""), "Error with getting playback, ");
    assert_eq!(state.spotify, "client");
    assert_eq!(state.playback_status, None);
}
