//! The decisions of the player: what each user or audio event does to the
//! player's state, and which outside actions it asks for.

use vstd::prelude::*;
use crate::text::{ends_with, has_suffix};
use crate::types::RadioData;

verus! {

/// The player's state: the selected station, whether it plays, and whether
/// the user paused it.
#[derive(Clone, Copy, Debug, PartialEq, Eq, Structural)]
pub struct PlayerState {
    pub selected: Option<usize>,
    pub playing: bool,
    pub manually_stopped: bool,
}

/// What happens to the player.
#[derive(Clone, Copy, Debug, PartialEq, Eq, Structural)]
pub enum PlayerEvent {
    /// The user picks the station at this index.
    Select(usize),
    /// The audio element reports the end of the stream.
    AudioEnded,
    /// The user presses the play/pause button.
    PlayPause,
}

/// What the player asks the outside world to do, in order.
#[derive(Clone, Copy, Debug, PartialEq, Eq, Structural)]
pub enum PlayerAction {
    /// Stop the audio.
    StopRadio,
    /// Pause the audio.
    PauseRadio,
    /// Attach the HLS stream of the station at this index to the audio element.
    AttachHls(usize),
    /// Apply the current volume to the audio element.
    ApplyVolume,
    /// Fetch the details of the station at this index and show them.
    FetchDetails(usize),
}

/// The address extension of an HLS playlist.
pub open spec fn hls_extension() -> Seq<char> {
    ".m3u8"@
}

/// There is a station at `idx`.
pub open spec fn station_exists(radios: Option<Vec<RadioData>>, idx: int) -> bool {
    match radios {
        Some(v) => 0 <= idx < v@.len(),
        None => false,
    }
}

/// There is a station at `idx` and it streams HLS.
pub open spec fn station_is_hls(radios: Option<Vec<RadioData>>, idx: int) -> bool {
    match radios {
        Some(v) => 0 <= idx < v@.len() && has_suffix(v@[idx].stream_url@, hls_extension()),
        None => false,
    }
}

/// The state in which the player starts: nothing selected, playing, not
/// paused by the user.
pub open spec fn initial_state() -> PlayerState {
    PlayerState { selected: None, playing: true, manually_stopped: false }
}

/// The state after an event.
pub open spec fn next_state(s: PlayerState, e: PlayerEvent) -> PlayerState {
    match e {
        PlayerEvent::Select(idx) => PlayerState {
            selected: Some(idx),
            playing: true,
            manually_stopped: false,
        },
        PlayerEvent::AudioEnded => PlayerState {
            selected: None,
            playing: false,
            manually_stopped: false,
        },
        PlayerEvent::PlayPause => if s.playing {
            PlayerState { selected: s.selected, playing: false, manually_stopped: true }
        } else {
            PlayerState { selected: s.selected, playing: true, manually_stopped: false }
        },
    }
}

/// The actions that an event asks for, in order.
pub open spec fn step_actions(
    s: PlayerState,
    e: PlayerEvent,
    radios: Option<Vec<RadioData>>,
) -> Seq<PlayerAction> {
    match e {
        PlayerEvent::Select(idx) => seq![PlayerAction::StopRadio] + if station_exists(
            radios,
            idx as int,
        ) {
            seq![PlayerAction::FetchDetails(idx)] + if station_is_hls(radios, idx as int) {
                Seq::<PlayerAction>::empty()
            } else {
                seq![PlayerAction::ApplyVolume]
            }
        } else {
            Seq::<PlayerAction>::empty()
        },
        PlayerEvent::AudioEnded => seq![PlayerAction::StopRadio],
        PlayerEvent::PlayPause => if s.playing {
            seq![PlayerAction::PauseRadio]
        } else {
            match s.selected {
                Some(idx) => if station_is_hls(radios, idx as int) && s.manually_stopped {
                    seq![PlayerAction::AttachHls(idx), PlayerAction::ApplyVolume]
                } else {
                    seq![PlayerAction::ApplyVolume]
                },
                None => seq![PlayerAction::ApplyVolume],
            }
        },
    }
}

/// The station whose HLS stream is attached when the state changes: the
/// selected one, where it exists, streams HLS, plays and was not paused by
/// the user.
pub open spec fn autostart_target(s: PlayerState, radios: Option<Vec<RadioData>>) -> Option<usize> {
    match s.selected {
        Some(idx) => if station_is_hls(radios, idx as int) && !s.manually_stopped && s.playing {
            Some(idx)
        } else {
            None
        },
        None => None,
    }
}

/// The station whose details are polled: the selected one, where it exists
/// and plays.
pub open spec fn poll_target_of(s: PlayerState, radios: Option<Vec<RadioData>>) -> Option<usize> {
    match s.selected {
        Some(idx) => if s.playing && station_exists(radios, idx as int) {
            Some(idx)
        } else {
            None
        },
        None => None,
    }
}

/// The player's state at start.
pub fn initial_player_state() -> (res: PlayerState)
    ensures
        res == initial_state(),
{
    PlayerState { selected: None, playing: true, manually_stopped: false }
}

/// The station at `idx`, where there is one.
pub fn station_at(radios: &Option<Vec<RadioData>>, idx: usize) -> (res: Option<&RadioData>)
    ensures
        res is Some <==> station_exists(*radios, idx as int),
        res matches Some(d) ==> *d == radios->0@[idx as int],
{
    match radios {
        Some(v) => if idx < v.len() {
            Some(&v[idx])
        } else {
            None
        },
        None => None,
    }
}

/// Whether there is a station at `idx` whose stream is an HLS playlist.
pub fn station_streams_hls(radios: &Option<Vec<RadioData>>, idx: usize) -> (res: bool)
    ensures
        res == station_is_hls(*radios, idx as int),
{
    match station_at(radios, idx) {
        Some(d) => {
            proof {
                reveal_strlit(".m3u8");
            }
            ends_with(d.stream_url.as_str(), ".m3u8")
        },
        None => false,
    }
}

/// The state after `event`, and the actions it asks for, in order.
pub fn step(state: PlayerState, event: PlayerEvent, radios: &Option<Vec<RadioData>>) -> (res: (
    PlayerState,
    Vec<PlayerAction>,
))
    ensures
        res.0 == next_state(state, event),
        res.1@ == step_actions(state, event, *radios),
{
    let mut actions: Vec<PlayerAction> = Vec::new();
    match event {
        PlayerEvent::Select(idx) => {
            actions.push(PlayerAction::StopRadio);
            if station_at(radios, idx).is_some() {
                actions.push(PlayerAction::FetchDetails(idx));
                if !station_streams_hls(radios, idx) {
                    actions.push(PlayerAction::ApplyVolume);
                }
            }
            assert(actions@ =~= step_actions(state, event, *radios));
            (PlayerState { selected: Some(idx), playing: true, manually_stopped: false }, actions)
        },
        PlayerEvent::AudioEnded => {
            actions.push(PlayerAction::StopRadio);
            assert(actions@ =~= step_actions(state, event, *radios));
            (PlayerState { selected: None, playing: false, manually_stopped: false }, actions)
        },
        PlayerEvent::PlayPause => {
            if state.playing {
                actions.push(PlayerAction::PauseRadio);
                assert(actions@ =~= step_actions(state, event, *radios));
                (
                    PlayerState {
                        selected: state.selected,
                        playing: false,
                        manually_stopped: true,
                    },
                    actions,
                )
            } else {
                if let Some(idx) = state.selected {
                    if station_streams_hls(radios, idx) && state.manually_stopped {
                        actions.push(PlayerAction::AttachHls(idx));
                    }
                }
                actions.push(PlayerAction::ApplyVolume);
                assert(actions@ =~= step_actions(state, event, *radios));
                (
                    PlayerState {
                        selected: state.selected,
                        playing: true,
                        manually_stopped: false,
                    },
                    actions,
                )
            }
        },
    }
}

/// The station whose HLS stream is attached after the state changed to
/// `state`, if any.
pub fn autostart_hls(state: PlayerState, radios: &Option<Vec<RadioData>>) -> (res: Option<usize>)
    ensures
        res == autostart_target(state, *radios),
{
    match state.selected {
        Some(idx) => if station_streams_hls(radios, idx) && !state.manually_stopped
            && state.playing {
            Some(idx)
        } else {
            None
        },
        None => None,
    }
}

/// The station whose details are polled in `state`, if any.
pub fn poll_target(state: PlayerState, radios: &Option<Vec<RadioData>>) -> (res: Option<usize>)
    ensures
        res == poll_target_of(state, *radios),
{
    match state.selected {
        Some(idx) => if state.playing && station_at(radios, idx).is_some() {
            Some(idx)
        } else {
            None
        },
        None => None,
    }
}

/// A player paused by the user is silent: the state at start, and every
/// state that an event leads to, has `manually_stopped` only where it does
/// not play.
pub proof fn lemma_user_pause_is_silent(s: PlayerState, e: PlayerEvent)
    ensures
        initial_state().manually_stopped ==> !initial_state().playing,
        next_state(s, e).manually_stopped ==> !next_state(s, e).playing,
{
}

/// Pressing play/pause twice gives back whether the player plays, and never
/// changes the selected station.
pub proof fn lemma_play_pause_twice(s: PlayerState)
    ensures
        next_state(next_state(s, PlayerEvent::PlayPause), PlayerEvent::PlayPause).playing
            == s.playing,
        next_state(s, PlayerEvent::PlayPause).selected == s.selected,
        next_state(next_state(s, PlayerEvent::PlayPause), PlayerEvent::PlayPause).selected
            == s.selected,
{
}

/// Selecting a station and the end of the audio both stop the audio before
/// anything else; selecting starts playing the chosen station, the end of the
/// audio leaves nothing selected and nothing playing.
pub proof fn lemma_select_and_end(s: PlayerState, idx: usize, radios: Option<Vec<RadioData>>)
    ensures
        step_actions(s, PlayerEvent::Select(idx), radios)[0] == PlayerAction::StopRadio,
        step_actions(s, PlayerEvent::AudioEnded, radios) == seq![PlayerAction::StopRadio],
        next_state(s, PlayerEvent::Select(idx)) == (PlayerState {
            selected: Some(idx),
            playing: true,
            manually_stopped: false,
        }),
        next_state(s, PlayerEvent::AudioEnded).selected is None,
        !next_state(s, PlayerEvent::AudioEnded).playing,
        autostart_target(next_state(s, PlayerEvent::AudioEnded), radios) is None,
        poll_target_of(next_state(s, PlayerEvent::AudioEnded), radios) is None,
{
}

/// An HLS stream is attached, by an event or after a change of state, only
/// for a station that exists and streams HLS; details are fetched or polled
/// only for a station that exists.
pub proof fn lemma_actions_name_existing_stations(
    s: PlayerState,
    e: PlayerEvent,
    radios: Option<Vec<RadioData>>,
    i: usize,
)
    ensures
        step_actions(s, e, radios).contains(PlayerAction::AttachHls(i)) ==> station_is_hls(
            radios,
            i as int,
        ),
        step_actions(s, e, radios).contains(PlayerAction::FetchDetails(i)) ==> station_exists(
            radios,
            i as int,
        ),
        autostart_target(s, radios) == Some(i) ==> station_is_hls(radios, i as int),
        poll_target_of(s, radios) == Some(i) ==> station_exists(radios, i as int),
{
    let acts = step_actions(s, e, radios);
    if acts.contains(PlayerAction::AttachHls(i)) {
        let k = choose|k: int| 0 <= k < acts.len() && acts[k] == PlayerAction::AttachHls(i);
        match e {
            PlayerEvent::Select(idx) => {
                if station_exists(radios, idx as int) {
                    assert(acts == seq![PlayerAction::StopRadio] + (seq![
                        PlayerAction::FetchDetails(idx),
                    ] + if station_is_hls(radios, idx as int) {
                        Seq::<PlayerAction>::empty()
                    } else {
                        seq![PlayerAction::ApplyVolume]
                    }));
                }
                assert(acts[k] != PlayerAction::AttachHls(i));
            },
            _ => {},
        }
    }
    if acts.contains(PlayerAction::FetchDetails(i)) {
        let k = choose|k: int| 0 <= k < acts.len() && acts[k] == PlayerAction::FetchDetails(i);
        match e {
            PlayerEvent::Select(idx) => {
                if station_exists(radios, idx as int) {
                    assert(acts == seq![PlayerAction::StopRadio] + (seq![
                        PlayerAction::FetchDetails(idx),
                    ] + if station_is_hls(radios, idx as int) {
                        Seq::<PlayerAction>::empty()
                    } else {
                        seq![PlayerAction::ApplyVolume]
                    }));
                    assert(acts[k] == PlayerAction::FetchDetails(idx));
                } else {
                    assert(acts == seq![PlayerAction::StopRadio]);
                }
            },
            _ => {},
        }
    }
}

/// Pausing a playing player asks only to pause the audio, and neither
/// attaches a stream nor polls afterwards.
pub proof fn lemma_pause_is_quiet(s: PlayerState, radios: Option<Vec<RadioData>>)
    requires
        s.playing,
    ensures
        step_actions(s, PlayerEvent::PlayPause, radios) == seq![PlayerAction::PauseRadio],
        autostart_target(next_state(s, PlayerEvent::PlayPause), radios) is None,
        poll_target_of(next_state(s, PlayerEvent::PlayPause), radios) is None,
{
}

/// Selecting a station does the same whatever the player was doing: the
/// state and the actions depend only on the station chosen and the list.
/// The audio is stopped; where the station is in the list its details are
/// fetched; where its stream address does not end in ".m3u8" the volume is
/// then applied to the new stream.
pub proof fn lemma_select_actions(
    s: PlayerState,
    other: PlayerState,
    i: usize,
    radios: Option<Vec<RadioData>>,
)
    ensures
        step_actions(s, PlayerEvent::Select(i), radios) == step_actions(
            other,
            PlayerEvent::Select(i),
            radios,
        ),
        next_state(s, PlayerEvent::Select(i)) == next_state(other, PlayerEvent::Select(i)),
        next_state(s, PlayerEvent::Select(i)).selected == Some(i),
        next_state(s, PlayerEvent::Select(i)).playing,
        !next_state(s, PlayerEvent::Select(i)).manually_stopped,
        radios is Some && i < radios->0@.len() ==> {
            let url = radios->0@[i as int].stream_url@;
            let hls = url.len() >= 5 && url.subrange(url.len() - 5, url.len() as int)
                == ".m3u8"@;
            &&& !hls ==> step_actions(s, PlayerEvent::Select(i), radios) == seq![
                PlayerAction::StopRadio,
                PlayerAction::FetchDetails(i),
                PlayerAction::ApplyVolume,
            ]
            &&& hls ==> step_actions(s, PlayerEvent::Select(i), radios) == seq![
                PlayerAction::StopRadio,
                PlayerAction::FetchDetails(i),
            ]
        },
        !(radios is Some && i < radios->0@.len()) ==> step_actions(
            s,
            PlayerEvent::Select(i),
            radios,
        ) == seq![PlayerAction::StopRadio],
{
    reveal_strlit(".m3u8");
}

/// Resuming a player that does not play makes it play and clears the user's
/// pause; it always ends by applying the volume, and before that attaches
/// the selected station's stream exactly where the user had paused it and
/// its address ends in ".m3u8".
pub proof fn lemma_resume_actions(s: PlayerState, radios: Option<Vec<RadioData>>)
    requires
        !s.playing,
    ensures
        next_state(s, PlayerEvent::PlayPause) == (PlayerState {
            selected: s.selected,
            playing: true,
            manually_stopped: false,
        }),
        ({
            let acts = step_actions(s, PlayerEvent::PlayPause, radios);
            let attach = s.selected is Some && radios is Some && s.selected->0 < radios->0@.len()
                && s.manually_stopped && {
                let url = radios->0@[s.selected->0 as int].stream_url@;
                url.len() >= 5 && url.subrange(url.len() - 5, url.len() as int) == ".m3u8"@
            };
            &&& attach ==> acts == seq![
                PlayerAction::AttachHls(s.selected->0),
                PlayerAction::ApplyVolume,
            ]
            &&& !attach ==> acts == seq![PlayerAction::ApplyVolume]
        }),
{
    reveal_strlit(".m3u8");
}

/// Pausing a playing player asks only to pause and remembers that the user
/// paused it; the end of the audio asks only to stop and leaves an idle
/// player.
pub proof fn lemma_pause_and_end_states(s: PlayerState, radios: Option<Vec<RadioData>>)
    ensures
        s.playing ==> next_state(s, PlayerEvent::PlayPause) == (PlayerState {
            selected: s.selected,
            playing: false,
            manually_stopped: true,
        }),
        s.playing ==> step_actions(s, PlayerEvent::PlayPause, radios) == seq![
            PlayerAction::PauseRadio,
        ],
        next_state(s, PlayerEvent::AudioEnded) == (PlayerState {
            selected: None,
            playing: false,
            manually_stopped: false,
        }),
        step_actions(s, PlayerEvent::AudioEnded, radios) == seq![PlayerAction::StopRadio],
{
}

/// After a change of state, the selected station's stream is attached
/// exactly where the player plays, the user has not paused it, and the
/// station is in the list with an address ending in ".m3u8"; details are
/// polled exactly where the player plays a station in the list.
pub proof fn lemma_effect_targets(s: PlayerState, radios: Option<Vec<RadioData>>)
    ensures
        autostart_target(s, radios) == (if s.selected is Some && radios is Some
            && s.selected->0 < radios->0@.len() && s.playing && !s.manually_stopped && {
            let url = radios->0@[s.selected->0 as int].stream_url@;
            url.len() >= 5 && url.subrange(url.len() - 5, url.len() as int) == ".m3u8"@
        } {
            s.selected
        } else {
            None
        }),
        poll_target_of(s, radios) == (if s.selected is Some && radios is Some
            && s.selected->0 < radios->0@.len() && s.playing {
            s.selected
        } else {
            None
        }),
{
    reveal_strlit(".m3u8");
}

} // verus!
