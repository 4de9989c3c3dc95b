use radyo_fenomen::catalog::{
    build_radios_data, card_subtitle, current_song, fetch_error_message, is_selected_card,
    make_radio_data, page_padding_class, play_button_label, player_subtitle, poll_delay_millis,
    poll_delay_seconds, song_image_url, song_label,
};
use radyo_fenomen::types::{Radio, RadioData, RadioDetailsData, RadioImage, RadioSongInfo};

fn radio(url: &str, title: Option<&str>, description: Option<&str>) -> Radio {
    Radio {
        ID: 1,
        name: format!("{} FM", url),
        URL: url.to_string(),
        image: RadioImage {
            prefix: "https://cdn.example.com".to_string(),
            suffix: format!("/u/{}.png", url),
        },
        title: title.map(|t| t.to_string()),
        description: description.map(|t| t.to_string()),
    }
}

fn data(title: &str, description: &str) -> RadioData {
    RadioData {
        stream_url: "s".to_string(),
        logo_url: "l".to_string(),
        id: "id".to_string(),
        name: "Name".to_string(),
        title: title.to_string(),
        description: description.to_string(),
    }
}

fn song(artist: Option<&str>, title: Option<&str>, image: bool, remaining: Option<u32>) -> RadioSongInfo {
    RadioSongInfo {
        artistTitle: artist.map(|t| t.to_string()),
        songTitle: title.map(|t| t.to_string()),
        image: if image {
            Some(RadioImage { prefix: "https://img.example.com/".to_string(), suffix: "/c.jpg".to_string() })
        } else {
            None
        },
        remainingSeconds: remaining,
    }
}

fn details(timeline: Option<Vec<RadioSongInfo>>) -> Option<RadioDetailsData> {
    Some(RadioDetailsData { title: None, description: None, timeline })
}

#[test]
fn radio_data_from_station() {
    let d = make_radio_data(&radio("fenomen", Some("Hits"), None), "https://s/x.m3u8".to_string());
    assert_eq!(
        d,
        RadioData {
            stream_url: "https://s/x.m3u8".to_string(),
            logo_url: "https://cdn.example.com/400x400/u/fenomen.png".to_string(),
            id: "fenomen".to_string(),
            name: "fenomen FM".to_string(),
            title: "Hits".to_string(),
            description: String::new(),
        }
    );
}

#[test]
fn radios_data_pairs_by_position() {
    let list = vec![radio("a", None, Some("d")), radio("b", None, None), radio("c", None, None)];
    let urls = vec!["u1".to_string(), "u2".to_string()];
    let out = build_radios_data(&list, &urls);
    assert_eq!(out.len(), 2);
    assert_eq!(out[0].id, "a");
    assert_eq!(out[0].stream_url, "u1");
    assert_eq!(out[0].description, "d");
    assert_eq!(out[1].id, "b");
    assert_eq!(out[1].stream_url, "u2");
    let more = vec!["1".to_string(), "2".to_string(), "3".to_string(), "4".to_string()];
    assert_eq!(build_radios_data(&list, &more).len(), 3);
    assert!(build_radios_data(&Vec::new(), &more).is_empty());
}

#[test]
fn card_subtitle_choices() {
    assert_eq!(card_subtitle(&data("T", "D")), "T");
    assert_eq!(card_subtitle(&data("", "D")), "D");
    assert_eq!(card_subtitle(&data("", "test")), "Name");
    assert_eq!(card_subtitle(&data("", "")), "Name");
    assert_eq!(card_subtitle(&data("", "tests")), "tests");
}

#[test]
fn player_subtitle_choices() {
    assert_eq!(player_subtitle(&data("T", "D")), "T");
    assert_eq!(player_subtitle(&data("", "test")), "test");
    assert_eq!(player_subtitle(&data("", "")), "");
}

#[test]
fn current_song_is_first_of_timeline() {
    let d = details(Some(vec![song(Some("A"), None, false, None), song(Some("B"), None, false, None)]));
    assert_eq!(current_song(&d).and_then(|s| s.artistTitle.clone()), Some("A".to_string()));
    assert!(current_song(&details(Some(vec![]))).is_none());
    assert!(current_song(&details(None)).is_none());
    assert!(current_song(&None).is_none());
}

#[test]
fn song_image_or_logo() {
    let with_image = details(Some(vec![song(None, None, true, None)]));
    assert_eq!(song_image_url(&with_image, "logo"), "https://img.example.com/300x300/c.jpg");
    let without_image = details(Some(vec![song(None, None, false, None)]));
    assert_eq!(song_image_url(&without_image, "logo"), "logo");
    assert_eq!(song_image_url(&None, "logo"), "logo");
}

#[test]
fn song_labels() {
    assert_eq!(song_label(&song(Some("Tarkan"), Some("Şımarık"), false, None)), "Tarkan - Şımarık");
    assert_eq!(song_label(&song(None, Some("X"), false, None)), " - X");
    assert_eq!(song_label(&song(None, None, false, None)), " - ");
}

#[test]
fn poll_delays() {
    assert_eq!(poll_delay_seconds(&None), 10);
    assert_eq!(poll_delay_seconds(&details(None)), 10);
    assert_eq!(poll_delay_seconds(&details(Some(vec![song(None, None, false, None)]))), 10);
    let d = details(Some(vec![song(None, None, false, Some(42)), song(None, None, false, Some(7))]));
    assert_eq!(poll_delay_seconds(&d), 42);
    assert_eq!(poll_delay_millis(&d), 42_000);
    assert_eq!(poll_delay_millis(&None), 10_000);
}

#[test]
fn small_labels() {
    assert!(is_selected_card(Some(3), 3));
    assert!(!is_selected_card(Some(3), 4));
    assert!(!is_selected_card(None, 0));
    assert_eq!(play_button_label(true), "Durdur");
    assert_eq!(play_button_label(false), "Çal");
    assert_eq!(page_padding_class(Some(0)), "pb-32");
    assert_eq!(page_padding_class(None), "");
    assert_eq!(fetch_error_message("bad"), "Veri alınırken hata oluştu: bad");
}
