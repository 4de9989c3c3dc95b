//! What the player shows of the stations: the records it keeps of them, the
//! texts and images of a card and of the player bar, and when it asks again
//! for what a station plays.

use vstd::prelude::*;
use crate::text::{concat, replace_all, same_text};
use crate::types::{text_or_empty, Radio, RadioData, RadioDetailsData, RadioImage, RadioSongInfo};
use crate::utils::{get_currently_playing_song_image, get_logo_url, sized_image_url, sized_logo_url};

verus! {

/// `d` is the player's record of `radio`, whose stream address is `url`:
/// logo at 400x400, id from the station's address, missing texts empty.
pub open spec fn radio_data_of(d: RadioData, radio: Radio, url: Seq<char>) -> bool {
    &&& d.stream_url@ == url
    &&& d.logo_url@ == sized_logo_url(radio.image.prefix@, radio.image.suffix@, "400"@, "400"@)
    &&& d.id@ == radio.URL@
    &&& d.name@ == radio.name@
    &&& d.title@ == text_or_empty(radio.title)
    &&& d.description@ == text_or_empty(radio.description)
}

/// The text under a station's name on its card: its title, else its
/// description unless that is empty or "test", else its name.
pub open spec fn card_subtitle_of(d: RadioData) -> Seq<char> {
    if d.title@.len() != 0 {
        d.title@
    } else if d.description@.len() != 0 && d.description@ != "test"@ {
        d.description@
    } else {
        d.name@
    }
}

/// The text under a station's name in the player bar: its title, else its
/// description.
pub open spec fn player_subtitle_of(d: RadioData) -> Seq<char> {
    if d.title@.len() != 0 {
        d.title@
    } else {
        d.description@
    }
}

/// The song a station plays now: the first of its timeline.
pub open spec fn current_song_of(details: Option<RadioDetailsData>) -> Option<RadioSongInfo> {
    match details {
        Some(d) => match d.timeline {
            Some(t) => if t@.len() > 0 {
                Some(t@[0])
            } else {
                None
            },
            None => None,
        },
        None => None,
    }
}

/// The image of the player bar: the current song's image at 300x300, else
/// the station's logo.
pub open spec fn song_image_of(details: Option<RadioDetailsData>, logo_url: Seq<char>) -> Seq<char> {
    match current_song_of(details) {
        Some(song) => match song.image {
            Some(img) => sized_image_url(img.prefix@, img.suffix@, "300"@, "300"@),
            None => logo_url,
        },
        None => logo_url,
    }
}

/// "artist - song", each part empty where unknown.
pub open spec fn song_label_of(song: RadioSongInfo) -> Seq<char> {
    text_or_empty(song.artistTitle) + " - "@ + text_or_empty(song.songTitle)
}

/// The seconds until the details of a station are asked for again: what is
/// left of the current song, else 10.
pub open spec fn poll_delay_of(details: Option<RadioDetailsData>) -> u32 {
    match current_song_of(details) {
        Some(song) => match song.remainingSeconds {
            Some(r) => r,
            None => 10,
        },
        None => 10,
    }
}

/// The player's record of a station whose stream address is `stream_url`.
pub fn make_radio_data(radio: &Radio, stream_url: String) -> (res: RadioData)
    ensures
        radio_data_of(res, *radio, stream_url@),
{
    let logo_url = get_logo_url(radio, "400", Some("400"));
    let title = match &radio.title {
        Some(t) => t.clone(),
        None => String::new(),
    };
    let description = match &radio.description {
        Some(t) => t.clone(),
        None => String::new(),
    };
    RadioData {
        stream_url,
        logo_url,
        id: radio.URL.clone(),
        name: radio.name.clone(),
        title,
        description,
    }
}

/// The player's records of the stations, each paired with the stream
/// address at the same position; as many as the shorter list holds.
pub fn build_radios_data(list: &Vec<Radio>, stream_urls: &Vec<String>) -> (res: Vec<RadioData>)
    ensures
        res@.len() == if list@.len() <= stream_urls@.len() {
            list@.len()
        } else {
            stream_urls@.len()
        },
        forall|i: int|
            0 <= i < res@.len() ==> radio_data_of(#[trigger] res@[i], list@[i], stream_urls@[i]@),
{
    let n = if list.len() <= stream_urls.len() {
        list.len()
    } else {
        stream_urls.len()
    };
    let mut out: Vec<RadioData> = Vec::new();
    let mut i: usize = 0;
    while i < n
        invariant
            n <= list@.len(),
            n <= stream_urls@.len(),
            n == list@.len() || n == stream_urls@.len(),
            i <= n,
            out@.len() == i,
            forall|j: int|
                0 <= j < i ==> radio_data_of(#[trigger] out@[j], list@[j], stream_urls@[j]@),
        decreases n - i,
    {
        let d = make_radio_data(&list[i], stream_urls[i].clone());
        out.push(d);
        i = i + 1;
    }
    out
}

/// The text under a station's name on its card.
pub fn card_subtitle(radio: &RadioData) -> (res: String)
    ensures
        res@ == card_subtitle_of(*radio),
{
    if !radio.title.as_str().is_empty() {
        radio.title.clone()
    } else if !radio.description.as_str().is_empty() && !same_text(
        radio.description.as_str(),
        "test",
    ) {
        radio.description.clone()
    } else {
        radio.name.clone()
    }
}

/// The text under a station's name in the player bar.
pub fn player_subtitle(radio: &RadioData) -> (res: String)
    ensures
        res@ == player_subtitle_of(*radio),
{
    if !radio.title.as_str().is_empty() {
        radio.title.clone()
    } else {
        radio.description.clone()
    }
}

/// The song a station plays now, if its details name one.
pub fn current_song(details: &Option<RadioDetailsData>) -> (res: Option<&RadioSongInfo>)
    ensures
        res is Some <==> current_song_of(*details) is Some,
        res matches Some(s) ==> *s == current_song_of(*details)->0,
{
    match details {
        Some(d) => match &d.timeline {
            Some(t) => if t.len() > 0 {
                Some(&t[0])
            } else {
                None
            },
            None => None,
        },
        None => None,
    }
}

/// The image of the player bar.
pub fn song_image_url(details: &Option<RadioDetailsData>, logo_url: &str) -> (res: String)
    ensures
        res@ == song_image_of(*details, logo_url@),
{
    match current_song(details) {
        Some(song) => match &song.image {
            Some(img) => {
                let image = RadioImage { prefix: img.prefix.clone(), suffix: img.suffix.clone() };
                get_currently_playing_song_image(image, "300", Some("300"))
            },
            None => String::from_str(logo_url),
        },
        None => String::from_str(logo_url),
    }
}

/// "artist - song" for the song that plays.
pub fn song_label(song: &RadioSongInfo) -> (res: String)
    ensures
        res@ == song_label_of(*song),
{
    let artist = match &song.artistTitle {
        Some(t) => t.clone(),
        None => String::new(),
    };
    let title = match &song.songTitle {
        Some(t) => t.clone(),
        None => String::new(),
    };
    let a = concat(artist.as_str(), " - ");
    concat(a.as_str(), title.as_str())
}

/// The seconds until the details of a station are asked for again.
pub fn poll_delay_seconds(details: &Option<RadioDetailsData>) -> (res: u32)
    ensures
        res == poll_delay_of(*details),
{
    match current_song(details) {
        Some(song) => match song.remainingSeconds {
            Some(r) => r,
            None => 10,
        },
        None => 10,
    }
}

/// The milliseconds until the details of a station are asked for again.
pub fn poll_delay_millis(details: &Option<RadioDetailsData>) -> (res: u32)
    requires
        poll_delay_of(*details) * 1000 <= u32::MAX,
    ensures
        res == poll_delay_of(*details) * 1000,
{
    poll_delay_seconds(details) * 1000
}

/// Whether the card at `idx` is the selected one.
pub fn is_selected_card(selected: Option<usize>, idx: usize) -> (res: bool)
    ensures
        res == (selected == Some(idx)),
{
    match selected {
        Some(s) => s == idx,
        None => false,
    }
}

/// The label of the play button: "Durdur" while playing, else "Çal".
pub fn play_button_label(is_playing: bool) -> (res: &'static str)
    ensures
        res == (if is_playing {
            "Durdur"
        } else {
            "Çal"
        }),
{
    if is_playing {
        "Durdur"
    } else {
        "Çal"
    }
}

/// The extra bottom padding of the page, made while the player bar shows.
pub fn page_padding_class(selected: Option<usize>) -> (res: &'static str)
    ensures
        res == (if selected is Some {
            "pb-32"
        } else {
            ""
        }),
{
    if selected.is_some() {
        "pb-32"
    } else {
        ""
    }
}

/// The message shown when the station list cannot be read.
pub fn fetch_error_message(detail: &str) -> (res: String)
    ensures
        res@ == "Veri alınırken hata oluştu: "@ + detail@,
{
    concat("Veri alınırken hata oluştu: ", detail)
}

/// Without details, or without a current song or its remaining time, the
/// details are asked for again after ten seconds; with them, after the
/// seconds that remain of the song.
pub proof fn lemma_poll_delay(details: Option<RadioDetailsData>)
    ensures
        details is None ==> poll_delay_of(details) == 10,
        current_song_of(details) matches Some(song) ==> (song.remainingSeconds matches Some(r)
            ==> poll_delay_of(details) == r),
        current_song_of(details) matches Some(song) ==> (song.remainingSeconds is None
            ==> poll_delay_of(details) == 10),
{
}

/// A station's record keeps the station's own fields: the stream address
/// given, the station's address as id, its name, its title and its
/// description each from the field of that name (empty where missing), and
/// its logo with "/u" replaced by "/400x400/u".
pub proof fn lemma_radio_data_fields(d: RadioData, radio: Radio, url: Seq<char>)
    requires
        radio_data_of(d, radio, url),
    ensures
        d.stream_url@ == url,
        d.id@ == radio.URL@,
        d.name@ == radio.name@,
        radio.title matches Some(t) ==> d.title@ == t@,
        radio.title is None ==> d.title@.len() == 0,
        radio.description matches Some(t) ==> d.description@ == t@,
        radio.description is None ==> d.description@.len() == 0,
        d.logo_url@ == replace_all(
            radio.image.prefix@ + radio.image.suffix@,
            "/u"@,
            "/400x400/u"@,
        ),
{
    reveal_strlit("/");
    reveal_strlit("400");
    reveal_strlit("x");
    reveal_strlit("/u");
    reveal_strlit("/400x400/u");
    assert("/"@ + "400"@ + "x"@ + "400"@ + "/u"@ =~= "/400x400/u"@);
}

/// The song shown is the first of the timeline, whatever follows it: its
/// image at 300x300 where it has one, else the station's logo; the seconds
/// until the next poll are what remains of it, else ten.
pub proof fn lemma_first_song_shown(
    t: Vec<RadioSongInfo>,
    title: Option<String>,
    description: Option<String>,
    logo: Seq<char>,
)
    requires
        t@.len() > 0,
    ensures
        ({
            let d = Some(RadioDetailsData { title, description, timeline: Some(t) });
            &&& current_song_of(d) == Some(t@[0])
            &&& t@[0].image matches Some(img) ==> song_image_of(d, logo) == img.prefix@
                + "300x300"@ + img.suffix@
            &&& t@[0].image is None ==> song_image_of(d, logo) == logo
            &&& t@[0].remainingSeconds matches Some(r) ==> poll_delay_of(d) == r
            &&& t@[0].remainingSeconds is None ==> poll_delay_of(d) == 10
        }),
{
    reveal_strlit("300");
    reveal_strlit("x");
    reveal_strlit("300x300");
    assert("300"@ + "x"@ + "300"@ =~= "300x300"@);
    if let Some(img) = t@[0].image {
        assert(img.prefix@ + "300"@ + "x"@ + "300"@ + img.suffix@ =~= img.prefix@ + "300x300"@
            + img.suffix@);
    }
}

/// Without a song in the details, the player bar shows the station's logo,
/// no current song, and polls again after ten seconds.
pub proof fn lemma_no_song_shown(details: Option<RadioDetailsData>, logo: Seq<char>)
    requires
        details is None || details->0.timeline is None || details->0.timeline->0@.len() == 0,
    ensures
        current_song_of(details) is None,
        song_image_of(details, logo) == logo,
        poll_delay_of(details) == 10,
{
}

/// The label of a song is its artist, " - ", and its title, each empty where
/// unknown.
pub proof fn lemma_song_label(song: RadioSongInfo)
    ensures
        song_label_of(song) == (match song.artistTitle {
            Some(a) => a@,
            None => Seq::<char>::empty(),
        }) + " - "@ + (match song.songTitle {
            Some(s) => s@,
            None => Seq::<char>::empty(),
        }),
{
}

/// A card shows the station's title whenever it has one, whatever its
/// description; without a title, the description unless it is empty or
/// "test"; else the name.
pub proof fn lemma_card_subtitle(d: RadioData)
    ensures
        d.title@.len() != 0 ==> card_subtitle_of(d) == d.title@,
        d.title@.len() == 0 && d.description@.len() != 0 && d.description@ != "test"@
            ==> card_subtitle_of(d) == d.description@,
        d.title@.len() == 0 && (d.description@.len() == 0 || d.description@ == "test"@)
            ==> card_subtitle_of(d) == d.name@,
{
}

/// The player bar shows the station's title whenever it has one, whatever
/// its description; without a title, its description.
pub proof fn lemma_player_subtitle(d: RadioData)
    ensures
        d.title@.len() != 0 ==> player_subtitle_of(d) == d.title@,
        d.title@.len() == 0 ==> player_subtitle_of(d) == d.description@,
{
}

} // verus!
