use radyo_fenomen::types::{Radio, RadioImage};
use radyo_fenomen::utils::{get_button_text, get_currently_playing_song_image, get_logo_url};

fn image(prefix: &str, suffix: &str) -> RadioImage {
    RadioImage { prefix: prefix.to_string(), suffix: suffix.to_string() }
}

fn radio_with_image(prefix: &str, suffix: &str) -> Radio {
    Radio {
        ID: 7,
        name: "Fenomen".to_string(),
        URL: "fenomen".to_string(),
        image: image(prefix, suffix),
        title: None,
        description: None,
    }
}

#[test]
fn song_image_uses_both_sizes() {
    let url = get_currently_playing_song_image(
        image("https://cdn.example.com/img/", "/cover.jpg"),
        "300",
        Some("200"),
    );
    assert_eq!(url, "https://cdn.example.com/img/300x200/cover.jpg");
}

#[test]
fn song_image_second_size_defaults_to_first() {
    let a = get_currently_playing_song_image(image("p/", "/s"), "300", None);
    let b = get_currently_playing_song_image(image("p/", "/s"), "300", Some("300"));
    assert_eq!(a, "p/300x300/s");
    assert_eq!(a, b);
}

#[test]
fn logo_url_inserts_size_before_u() {
    let radio = radio_with_image("https://cdn.example.com", "/u/logo.png");
    assert_eq!(
        get_logo_url(&radio, "400", Some("400")),
        "https://cdn.example.com/400x400/u/logo.png"
    );
}

#[test]
fn logo_url_second_size_defaults_to_first() {
    let radio = radio_with_image("https://cdn.example.com", "/u/logo.png");
    assert_eq!(get_logo_url(&radio, "120", None), get_logo_url(&radio, "120", Some("120")));
    assert_eq!(get_logo_url(&radio, "120", Some("80")), "https://cdn.example.com/120x80/u/logo.png");
}

#[test]
fn logo_url_replaces_every_marker() {
    let radio = radio_with_image("a/u", "b/u/u");
    assert_eq!(get_logo_url(&radio, "1", Some("2")), "a/1x2/ub/1x2/u/1x2/u");
}

#[test]
fn logo_url_without_marker_is_joined_address() {
    let radio = radio_with_image("https://cdn.example.com/logos", "/fenomen.png");
    assert_eq!(
        get_logo_url(&radio, "400", Some("400")),
        "https://cdn.example.com/logos/fenomen.png"
    );
}

#[test]
fn logo_url_of_empty_image() {
    let radio = radio_with_image("", "");
    assert_eq!(get_logo_url(&radio, "400", None), "");
}

#[test]
fn logo_url_keeps_non_ascii_text() {
    let radio = radio_with_image("ş/ü/u", "ç");
    assert_eq!(get_logo_url(&radio, "9", None), "ş/ü/9x9/uç");
}

#[test]
fn button_text_selected_and_playing() {
    assert_eq!(get_button_text(true, true, Some(2), 2), "Çalıyor");
}

#[test]
fn button_text_selected_and_paused() {
    assert_eq!(get_button_text(true, false, Some(2), 2), "Durduruldu");
}

#[test]
fn button_text_other_station() {
    assert_eq!(get_button_text(false, true, Some(2), 3), "Seç & Dinle");
    assert_eq!(get_button_text(false, false, Some(2), 3), "Seç & Dinle");
    assert_eq!(get_button_text(false, false, None, 3), "Seç & Dinle");
}
