//! What the player makes of the replies that the desktop side hands it.

use vstd::prelude::*;
use crate::types::{RadioDetailsData, RadioDetailsResponse, RadioStreamData};

verus! {

/// The desktop command that lists the stations.
pub const FETCH_RADIOS_COMMAND: &'static str = "fetch_radios";

/// The desktop command that fetches a station's details.
pub const GET_RADIO_COMMAND: &'static str = "get_radio";

/// The desktop command that fetches a station's stream address.
pub const GET_RADIO_STREAM_COMMAND: &'static str = "get_radio_stream";

/// The desktop command that stores the volume.
pub const SAVE_VOLUME_COMMAND: &'static str = "save_volume";

/// The desktop command that reads the stored volume.
pub const LOAD_VOLUME_COMMAND: &'static str = "load_volume";

/// The stream address in a stream reply; empty where the reply could not be
/// read.
pub fn stream_url_from_reply(reply: Option<RadioStreamData>) -> (res: String)
    ensures
        match reply {
            Some(r) => res@ == r.data.URL@,
            None => res@ == Seq::<char>::empty(),
        },
{
    match reply {
        Some(r) => r.data.URL,
        None => String::new(),
    }
}

/// The details in a details reply, where the reply could be read.
pub fn details_from_reply(reply: Option<RadioDetailsResponse>) -> (res: Option<RadioDetailsData>)
    ensures
        match reply {
            Some(r) => res == Some(r.data),
            None => res is None,
        },
{
    match reply {
        Some(r) => Some(r.data),
        None => None,
    }
}

} // verus!
