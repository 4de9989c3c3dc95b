use radyo_fenomen::player::{
    autostart_hls, initial_player_state, poll_target, station_at, station_streams_hls, step,
    PlayerAction, PlayerEvent, PlayerState,
};
use radyo_fenomen::types::RadioData;

fn station(id: &str, stream_url: &str) -> RadioData {
    RadioData {
        stream_url: stream_url.to_string(),
        logo_url: format!("https://cdn.example.com/{}.png", id),
        id: id.to_string(),
        name: id.to_uppercase(),
        title: String::new(),
        description: String::new(),
    }
}

fn stations() -> Option<Vec<RadioData>> {
    Some(vec![
        station("fenomen", "https://stream.example.com/fenomen/playlist.m3u8"),
        station("akustik", "https://stream.example.com/akustik.mp3"),
    ])
}

fn state(selected: Option<usize>, playing: bool, manually_stopped: bool) -> PlayerState {
    PlayerState { selected, playing, manually_stopped }
}

#[test]
fn starts_playing_with_nothing_selected() {
    assert_eq!(initial_player_state(), state(None, true, false));
}

#[test]
fn selecting_hls_station() {
    let (next, actions) = step(state(None, true, false), PlayerEvent::Select(0), &stations());
    assert_eq!(next, state(Some(0), true, false));
    assert_eq!(actions, vec![PlayerAction::StopRadio, PlayerAction::FetchDetails(0)]);
}

#[test]
fn selecting_plain_station_applies_volume() {
    let (next, actions) = step(state(Some(0), false, true), PlayerEvent::Select(1), &stations());
    assert_eq!(next, state(Some(1), true, false));
    assert_eq!(
        actions,
        vec![PlayerAction::StopRadio, PlayerAction::FetchDetails(1), PlayerAction::ApplyVolume]
    );
}

#[test]
fn selecting_missing_station_only_stops() {
    let (next, actions) = step(state(None, true, false), PlayerEvent::Select(5), &stations());
    assert_eq!(next, state(Some(5), true, false));
    assert_eq!(actions, vec![PlayerAction::StopRadio]);
    let (_, actions) = step(state(None, true, false), PlayerEvent::Select(0), &None);
    assert_eq!(actions, vec![PlayerAction::StopRadio]);
}

#[test]
fn audio_end_resets() {
    let (next, actions) = step(state(Some(1), true, false), PlayerEvent::AudioEnded, &stations());
    assert_eq!(next, state(None, false, false));
    assert_eq!(actions, vec![PlayerAction::StopRadio]);
    assert_eq!(autostart_hls(next, &stations()), None);
    assert_eq!(poll_target(next, &stations()), None);
}

#[test]
fn pause_while_playing() {
    let (next, actions) = step(state(Some(0), true, false), PlayerEvent::PlayPause, &stations());
    assert_eq!(next, state(Some(0), false, true));
    assert_eq!(actions, vec![PlayerAction::PauseRadio]);
    assert_eq!(autostart_hls(next, &stations()), None);
    assert_eq!(poll_target(next, &stations()), None);
}

#[test]
fn resume_after_user_pause_reattaches_hls() {
    let (next, actions) = step(state(Some(0), false, true), PlayerEvent::PlayPause, &stations());
    assert_eq!(next, state(Some(0), true, false));
    assert_eq!(actions, vec![PlayerAction::AttachHls(0), PlayerAction::ApplyVolume]);
}

#[test]
fn resume_plain_station_applies_volume_only() {
    let (next, actions) = step(state(Some(1), false, true), PlayerEvent::PlayPause, &stations());
    assert_eq!(next, state(Some(1), true, false));
    assert_eq!(actions, vec![PlayerAction::ApplyVolume]);
}

#[test]
fn resume_after_end_does_not_attach() {
    let (next, actions) = step(state(Some(0), false, false), PlayerEvent::PlayPause, &stations());
    assert_eq!(next, state(Some(0), true, false));
    assert_eq!(actions, vec![PlayerAction::ApplyVolume]);
    let (_, actions) = step(state(None, false, true), PlayerEvent::PlayPause, &stations());
    assert_eq!(actions, vec![PlayerAction::ApplyVolume]);
}

#[test]
fn play_pause_twice_restores_playing() {
    for s in [
        state(Some(0), true, false),
        state(Some(1), false, true),
        state(None, false, false),
        state(None, true, false),
    ] {
        let (once, _) = step(s, PlayerEvent::PlayPause, &stations());
        let (twice, _) = step(once, PlayerEvent::PlayPause, &stations());
        assert_eq!(twice.playing, s.playing);
        assert_eq!(twice.selected, s.selected);
        assert_eq!(once.selected, s.selected);
    }
}

#[test]
fn user_pause_is_silent() {
    let events = [PlayerEvent::Select(0), PlayerEvent::PlayPause, PlayerEvent::AudioEnded];
    let mut s = initial_player_state();
    for round in 0..9 {
        let (next, _) = step(s, events[round % 3], &stations());
        assert!(!next.manually_stopped || !next.playing);
        s = next;
    }
}

#[test]
fn autostart_only_for_playing_hls() {
    assert_eq!(autostart_hls(state(Some(0), true, false), &stations()), Some(0));
    assert_eq!(autostart_hls(state(Some(1), true, false), &stations()), None);
    assert_eq!(autostart_hls(state(Some(0), false, false), &stations()), None);
    assert_eq!(autostart_hls(state(Some(0), true, true), &stations()), None);
    assert_eq!(autostart_hls(state(Some(9), true, false), &stations()), None);
    assert_eq!(autostart_hls(state(None, true, false), &stations()), None);
}

#[test]
fn poll_only_existing_playing_station() {
    assert_eq!(poll_target(state(Some(1), true, false), &stations()), Some(1));
    assert_eq!(poll_target(state(Some(1), false, true), &stations()), None);
    assert_eq!(poll_target(state(Some(4), true, false), &stations()), None);
    assert_eq!(poll_target(state(Some(0), true, false), &None), None);
}

#[test]
fn station_lookup() {
    let radios = stations();
    assert_eq!(station_at(&radios, 1).map(|d| d.id.clone()), Some("akustik".to_string()));
    assert!(station_at(&radios, 2).is_none());
    assert!(station_streams_hls(&radios, 0));
    assert!(!station_streams_hls(&radios, 1));
    assert!(!station_streams_hls(&radios, 2));
}
