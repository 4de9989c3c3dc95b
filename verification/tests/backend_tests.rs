use radyo_fenomen::api::{details_from_reply, stream_url_from_reply};
use radyo_fenomen::backend::{
    base_form, common_headers, parse_reply, quality_index, radio_details_endpoint,
    radio_details_request, radio_stream_endpoint, radio_stream_request, radios_request,
    stream_form, RequestMethod, RADIOS_ENDPOINT,
};
use radyo_fenomen::types::{
    RadioDetailsData, RadioDetailsResponse, RadioStreamData, RadioStreamDataItem,
};
use std::collections::HashSet;

#[test]
fn headers_sent() {
    let headers = common_headers();
    assert_eq!(headers.len(), 11);
    assert_eq!(
        headers[0],
        ("user-agent", "Mozilla/5.0 (Windows NT 10.0; Win64; x64; rv:140.0) Gecko/20100101 Firefox/140.0")
    );
    assert_eq!(headers[3], ("content-type", "application/x-www-form-urlencoded; charset=UTF-8"));
    assert_eq!(headers[10], ("Referer", "https://www.radyofenomen.com/"));
    let names: HashSet<String> = headers.iter().map(|(n, _)| n.to_lowercase()).collect();
    assert_eq!(names.len(), headers.len());
}

#[test]
fn forms_sent() {
    let base = base_form();
    assert_eq!(
        base,
        vec![
            ("client", "web"),
            ("lang", "tr"),
            ("version", "8"),
            ("token", ""),
            ("siteID", "20"),
            ("devicePlatform", "1"),
            ("deviceType", "0"),
        ]
    );
    let hd = stream_form("fenomen", true);
    assert_eq!(hd[..7], base[..]);
    assert_eq!(hd[7..], [("URL", "fenomen"), ("qualityIndex", "1")]);
    let sd = stream_form("fenomen", false);
    assert_eq!(sd[8], ("qualityIndex", "0"));
    assert_eq!(quality_index(true), "1");
    assert_eq!(quality_index(false), "0");
    let names: HashSet<&str> = hd.iter().map(|(n, _)| *n).collect();
    assert_eq!(names.len(), hd.len());
}

#[test]
fn endpoints() {
    assert_eq!(RADIOS_ENDPOINT, "https://api.radyofenomen.com/v2/Route/get?url=/radyolar");
    assert_eq!(
        radio_details_endpoint("fenomen-akustik"),
        "https://api.radyofenomen.com/v2/Route/get?url=/radyolar/fenomen-akustik"
    );
    assert_eq!(
        radio_stream_endpoint("fenomen"),
        "https://api.radyofenomen.com/v2/Channels/getSecureLink?url=/radyolar/fenomen"
    );
}

#[test]
fn reply_decoding() {
    let v = parse_reply(r#"{"data":{"URL":"https://s/x.m3u8"}}"#).unwrap();
    assert_eq!(v["data"]["URL"], "https://s/x.m3u8");
    assert_eq!(parse_reply("").unwrap_err(), "EOF while parsing a value at line 1 column 0");
    assert!(parse_reply("{not json").is_err());
    assert!(parse_reply("[1, 2]").unwrap().is_array());
}

#[test]
fn stream_reply_or_empty() {
    let reply = RadioStreamData { data: RadioStreamDataItem { URL: "https://s/x.m3u8".to_string() } };
    assert_eq!(stream_url_from_reply(Some(reply)), "https://s/x.m3u8");
    assert_eq!(stream_url_from_reply(None), "");
}

#[test]
fn details_reply() {
    let data = RadioDetailsData { title: Some("T".to_string()), description: None, timeline: None };
    let reply = RadioDetailsResponse { data: data.clone() };
    assert_eq!(details_from_reply(Some(reply)), Some(data));
    assert_eq!(details_from_reply(None), None);
}

#[test]
fn reply_document_is_the_decoded_text() {
    let text = r#"{"data":{"list":[{"ID":1,"name":"Fenomen"}]}}"#;
    let expected: serde_json::Value = serde_json::from_str(text).unwrap();
    assert_eq!(parse_reply(text).unwrap(), expected);
    assert_ne!(parse_reply(text).unwrap(), parse_reply("[]").unwrap());
    let err = serde_json::from_str::<serde_json::Value>("{\"a\":").unwrap_err().to_string();
    assert_eq!(parse_reply("{\"a\":").unwrap_err(), err);
}

#[test]
fn requests_pair_forms_with_endpoints() {
    let list = radios_request();
    assert_eq!(list.method, RequestMethod::Post);
    assert_eq!(list.headers, common_headers());
    assert_eq!(list.url, RADIOS_ENDPOINT);
    assert_eq!(list.form, base_form());
    let details = radio_details_request("fenomen");
    assert_eq!(details.url, radio_details_endpoint("fenomen"));
    assert_eq!(details.form, base_form());
    assert_eq!(details.method, RequestMethod::Post);
    assert_eq!(details.headers, common_headers());
    let stream = radio_stream_request("fenomen", true);
    assert_eq!(stream.url, radio_stream_endpoint("fenomen"));
    assert_eq!(stream.form, stream_form("fenomen", true));
    assert_eq!(stream.method, RequestMethod::Post);
    assert_eq!(stream.headers, common_headers());
}
