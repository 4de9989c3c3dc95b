//! The records that the station service sends and the player keeps.

use vstd::prelude::*;

verus! {

/// The reply to the request for the list of stations.
#[derive(Clone, Debug, PartialEq)]
pub struct ApiResponse {
    pub data: ApiData,
}

/// The payload of the station list reply.
#[derive(Clone, Debug, PartialEq)]
pub struct ApiData {
    pub list: Vec<Radio>,
}

/// One station as the service describes it.
#[allow(non_snake_case)]
#[derive(Clone, Debug, PartialEq)]
pub struct Radio {
    pub ID: u32,
    pub name: String,
    pub URL: String,
    pub image: RadioImage,
    pub title: Option<String>,
    pub description: Option<String>,
}

/// An image address split around the place where its size goes.
#[derive(Clone, Debug, PartialEq)]
pub struct RadioImage {
    pub prefix: String,
    pub suffix: String,
}

/// The reply to the request for one station's details.
#[derive(Clone, Debug, PartialEq)]
pub struct RadioDetailsResponse {
    pub data: RadioDetailsData,
}

/// A station's details: its texts and what it is playing.
#[derive(Clone, Debug, PartialEq)]
pub struct RadioDetailsData {
    pub title: Option<String>,
    pub description: Option<String>,
    pub timeline: Option<Vec<RadioSongInfo>>,
}

/// A song in a station's timeline.
#[allow(non_snake_case)]
#[derive(Clone, Debug, PartialEq)]
pub struct RadioSongInfo {
    pub artistTitle: Option<String>,
    pub songTitle: Option<String>,
    pub image: Option<RadioImage>,
    pub remainingSeconds: Option<u32>,
}

/// The reply to the request for a station's stream address.
#[derive(Clone, Debug, PartialEq)]
pub struct RadioStreamData {
    pub data: RadioStreamDataItem,
}

/// The payload of the stream address reply.
#[allow(non_snake_case)]
#[derive(Clone, Debug, PartialEq)]
pub struct RadioStreamDataItem {
    pub URL: String,
}

/// A station as the player shows it.
#[derive(Clone, Debug, PartialEq)]
pub struct RadioData {
    pub stream_url: String,
    pub logo_url: String,
    pub id: String,
    pub name: String,
    pub title: String,
    pub description: String,
}

/// The text of an optional string, empty where there is none.
pub open spec fn text_or_empty(s: Option<String>) -> Seq<char> {
    match s {
        Some(t) => t@,
        None => Seq::empty(),
    }
}

} // verus!
