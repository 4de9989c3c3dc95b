//! What the desktop side sends to the station service and how it reads the
//! replies: the headers and form of every request, the endpoints, and the
//! decoding of a reply into JSON.

use vstd::prelude::*;
use crate::text::concat;

verus! {

/// A JSON document as serde_json holds it.
#[verifier::external_type_specification]
#[verifier::external_body]
pub struct ExJsonValue(serde_json::Value);

/// The endpoint that lists the stations.
pub const RADIOS_ENDPOINT: &'static str = "https://api.radyofenomen.com/v2/Route/get?url=/radyolar";

/// The headers sent with every request to the station service, by name.
pub open spec fn request_headers() -> Seq<(&'static str, &'static str)> {
    seq![
        ("user-agent", "Mozilla/5.0 (Windows NT 10.0; Win64; x64; rv:140.0) Gecko/20100101 Firefox/140.0"),
        ("accept", "application/json, text/javascript, */*; q=0.01"),
        ("accept-language", "en-US,en;q=0.5"),
        ("content-type", "application/x-www-form-urlencoded; charset=UTF-8"),
        ("Sec-GPC", "1"),
        ("Sec-Fetch-Dest", "empty"),
        ("Sec-Fetch-Mode", "cors"),
        ("Sec-Fetch-Site", "same-site"),
        ("Pragma", "no-cache"),
        ("Cache-Control", "no-cache"),
        ("Referer", "https://www.radyofenomen.com/"),
    ]
}

/// The form fields sent with every request to the station service.
pub open spec fn base_form_fields() -> Seq<(&'static str, &'static str)> {
    seq![
        ("client", "web"),
        ("lang", "tr"),
        ("version", "8"),
        ("token", ""),
        ("siteID", "20"),
        ("devicePlatform", "1"),
        ("deviceType", "0"),
    ]
}

/// The quality index asked for: "1" for HD, "0" otherwise.
pub open spec fn quality_index_of(hd: bool) -> &'static str {
    if hd {
        "1"
    } else {
        "0"
    }
}

/// No two fields share a name.
pub open spec fn distinct_names<'a>(fields: Seq<(&'a str, &'a str)>) -> bool {
    forall|i: int, j: int|
        0 <= i < fields.len() && 0 <= j < fields.len() && i != j ==> fields[i].0@ != fields[j].0@
}

/// What serde_json makes of `text` read as a JSON document: the document,
/// or the display text of the error it reports.
pub uninterp spec fn json_decode(text: Seq<char>) -> Result<serde_json::Value, Seq<char>>;

/// The outcome of decoding, with the error taken by its text.
pub open spec fn decode_outcome(res: Result<serde_json::Value, String>) -> Result<
    serde_json::Value,
    Seq<char>,
> {
    match res {
        Ok(v) => Ok(v),
        Err(e) => Err(e@),
    }
}

/// Calls `serde_json::from_str::<serde_json::Value>` and turns its error into
/// its display text. Claimed: the document, or the error text, is the one
/// that `json_decode` names for the input, and an empty input is refused
/// (serde_json reports an end of input while a value is expected).
#[verifier::external_body]
fn decode_json(text: &str) -> (res: Result<serde_json::Value, String>)
    ensures
        decode_outcome(res) == json_decode(text@),
        text@.len() == 0 ==> res is Err,
{
    serde_json::from_str::<serde_json::Value>(text).map_err(|e| e.to_string())
}

/// The headers sent with every request to the station service.
pub fn common_headers() -> (res: Vec<(&'static str, &'static str)>)
    ensures
        res@ == request_headers(),
{
    let headers = vec![
        ("user-agent", "Mozilla/5.0 (Windows NT 10.0; Win64; x64; rv:140.0) Gecko/20100101 Firefox/140.0"),
        ("accept", "application/json, text/javascript, */*; q=0.01"),
        ("accept-language", "en-US,en;q=0.5"),
        ("content-type", "application/x-www-form-urlencoded; charset=UTF-8"),
        ("Sec-GPC", "1"),
        ("Sec-Fetch-Dest", "empty"),
        ("Sec-Fetch-Mode", "cors"),
        ("Sec-Fetch-Site", "same-site"),
        ("Pragma", "no-cache"),
        ("Cache-Control", "no-cache"),
        ("Referer", "https://www.radyofenomen.com/"),
    ];
    assert(headers@ =~= request_headers());
    headers
}

/// The form fields sent with every request to the station service.
pub fn base_form() -> (res: Vec<(&'static str, &'static str)>)
    ensures
        res@ == base_form_fields(),
{
    let form = vec![
        ("client", "web"),
        ("lang", "tr"),
        ("version", "8"),
        ("token", ""),
        ("siteID", "20"),
        ("devicePlatform", "1"),
        ("deviceType", "0"),
    ];
    assert(form@ =~= base_form_fields());
    form
}

/// The quality index asked for.
pub fn quality_index(hd: bool) -> (res: &'static str)
    ensures
        res == quality_index_of(hd),
{
    if hd {
        "1"
    } else {
        "0"
    }
}

/// The form fields of the request for a station's stream address: the
/// common fields, the station's address and the quality index.
pub fn stream_form<'a>(radio_name: &'a str, hd: bool) -> (res: Vec<(&'a str, &'a str)>)
    ensures
        res@ == base_form_fields() + seq![("URL", radio_name), ("qualityIndex", quality_index_of(hd))],
{
    let mut form: Vec<(&'a str, &'a str)> = Vec::new();
    let base = base_form();
    let mut i: usize = 0;
    while i < base.len()
        invariant
            base@ == base_form_fields(),
            i <= base@.len(),
            form@ == base@.subrange(0, i as int),
        decreases base@.len() - i,
    {
        form.push(base[i]);
        assert(form@ =~= base@.subrange(0, i + 1));
        i = i + 1;
    }
    form.push(("URL", radio_name));
    form.push(("qualityIndex", quality_index(hd)));
    assert(form@ =~= base_form_fields() + seq![
        ("URL", radio_name),
        ("qualityIndex", quality_index_of(hd)),
    ]);
    form
}

/// The endpoint of a station's details.
pub fn radio_details_endpoint(radio_name: &str) -> (res: String)
    ensures
        res@ == "https://api.radyofenomen.com/v2/Route/get?url=/radyolar/"@ + radio_name@,
{
    concat("https://api.radyofenomen.com/v2/Route/get?url=/radyolar/", radio_name)
}

/// The endpoint of a station's stream address.
pub fn radio_stream_endpoint(radio_name: &str) -> (res: String)
    ensures
        res@ == "https://api.radyofenomen.com/v2/Channels/getSecureLink?url=/radyolar/"@
            + radio_name@,
{
    concat("https://api.radyofenomen.com/v2/Channels/getSecureLink?url=/radyolar/", radio_name)
}

/// The HTTP method of a request to the station service.
#[derive(Clone, Copy, Debug, PartialEq, Eq, Structural)]
pub enum RequestMethod {
    /// A form posted in the request body.
    Post,
}

/// A request to the station service: its method, where it goes, the headers
/// it carries and the form in its body.
pub struct ServiceRequest<'a> {
    pub method: RequestMethod,
    pub url: String,
    pub headers: Vec<(&'static str, &'static str)>,
    pub form: Vec<(&'a str, &'a str)>,
}

/// The request for the list of stations: the common form, posted with the
/// common headers to the list endpoint.
pub fn radios_request() -> (res: ServiceRequest<'static>)
    ensures
        res.method == RequestMethod::Post,
        res.headers@ == request_headers(),
        res.url@ == RADIOS_ENDPOINT@,
        res.form@ == base_form_fields(),
{
    ServiceRequest {
        method: RequestMethod::Post,
        url: String::from_str(RADIOS_ENDPOINT),
        headers: common_headers(),
        form: base_form(),
    }
}

/// The request for a station's details: the common form, posted with the
/// common headers to the station's details endpoint.
pub fn radio_details_request(radio_name: &str) -> (res: ServiceRequest<'static>)
    ensures
        res.method == RequestMethod::Post,
        res.headers@ == request_headers(),
        res.url@ == "https://api.radyofenomen.com/v2/Route/get?url=/radyolar/"@ + radio_name@,
        res.form@ == base_form_fields(),
{
    ServiceRequest {
        method: RequestMethod::Post,
        url: radio_details_endpoint(radio_name),
        headers: common_headers(),
        form: base_form(),
    }
}

/// The request for a station's stream address: the stream form, posted
/// with the common headers to the station's stream endpoint.
pub fn radio_stream_request<'a>(radio_name: &'a str, hd: bool) -> (res: ServiceRequest<'a>)
    ensures
        res.method == RequestMethod::Post,
        res.headers@ == request_headers(),
        res.url@ == "https://api.radyofenomen.com/v2/Channels/getSecureLink?url=/radyolar/"@
            + radio_name@,
        res.form@ == base_form_fields() + seq![
            ("URL", radio_name),
            ("qualityIndex", quality_index_of(hd)),
        ],
{
    ServiceRequest {
        method: RequestMethod::Post,
        url: radio_stream_endpoint(radio_name),
        headers: common_headers(),
        form: stream_form(radio_name, hd),
    }
}

/// A reply of the station service decoded as JSON, or the text of the
/// decoding error.
pub fn parse_reply(text: &str) -> (res: Result<serde_json::Value, String>)
    ensures
        decode_outcome(res) == json_decode(text@),
        text@.len() == 0 ==> res is Err,
{
    decode_json(text)
}

/// Every request names each header once, and every form names each field
/// once; the form of a stream request is the common form with the station's
/// address and the quality index after it.
pub proof fn lemma_names_distinct(radio_name: &str, hd: bool)
    ensures
        distinct_names(request_headers()),
        distinct_names(base_form_fields()),
        distinct_names(
            base_form_fields() + seq![("URL", radio_name), ("qualityIndex", quality_index_of(hd))],
        ),
{
    reveal_strlit("user-agent");
    reveal_strlit("accept");
    reveal_strlit("accept-language");
    reveal_strlit("content-type");
    reveal_strlit("Sec-GPC");
    reveal_strlit("Sec-Fetch-Dest");
    reveal_strlit("Sec-Fetch-Mode");
    reveal_strlit("Sec-Fetch-Site");
    reveal_strlit("Pragma");
    reveal_strlit("Cache-Control");
    reveal_strlit("Referer");
    reveal_strlit("client");
    reveal_strlit("lang");
    reveal_strlit("version");
    reveal_strlit("token");
    reveal_strlit("siteID");
    reveal_strlit("devicePlatform");
    reveal_strlit("deviceType");
    reveal_strlit("URL");
    reveal_strlit("qualityIndex");
    let h = request_headers();
    assert forall|i: int, j: int| 0 <= i < h.len() && 0 <= j < h.len() && i != j implies h[i].0@
        != h[j].0@ by {
        if h[i].0@ == h[j].0@ {
            assert(h[i].0@.len() == h[j].0@.len());
            assert(h[i].0@[0] == h[j].0@[0]);
            assert(h[i].0@[h[i].0@.len() - 1] == h[j].0@[h[j].0@.len() - 1]);
            assert(h[i].0@[10] == h[j].0@[10]);
        }
    }
    let f = base_form_fields() + seq![("URL", radio_name), ("qualityIndex", quality_index_of(hd))];
    assert forall|i: int, j: int| 0 <= i < f.len() && 0 <= j < f.len() && i != j implies f[i].0@
        != f[j].0@ by {
        if f[i].0@ == f[j].0@ {
            assert(f[i].0@.len() == f[j].0@.len());
            assert(f[i].0@[0] == f[j].0@[0]);
            assert(f[i].0@[f[i].0@.len() - 1] == f[j].0@[f[j].0@.len() - 1]);
        }
    }
    let b = base_form_fields();
    assert forall|i: int, j: int| 0 <= i < b.len() && 0 <= j < b.len() && i != j implies b[i].0@
        != b[j].0@ by {
        assert(b[i] == f[i] && b[j] == f[j]);
    }
}

} // verus!
