use rosu_tracker::acceptor::{route, serve, serve_ws, Rejection};
use rosu_tracker::acceptor::{BAD_REQUEST, NOT_FOUND, SWITCHING_PROTOCOLS};
use rosu_tracker::constants::{endpoint, uri};
use rosu_tracker::constants::{
    APP_ID, BASE_IP, BASE_URI, CONFIG_VERSION, FIRSTS_ENDPOINT, FIRSTS_URI, RECENT_ENDPOINT,
    RECENT_URI, TOPS_ENDPOINT, TOPS_URI, USER_ENDPOINT, USER_URI,
};
use rosu_tracker::registry::Registry;
use rosu_tracker::structs::{WsClient, WsKind};

const SAMPLE_KEY: &str = "dGhlIHNhbXBsZSBub25jZQ==";
const SAMPLE_ACCEPT: &str = "s3pPLMBiTxaQ9kYGzzhZRbK+xOo=";

fn header_pairs(headers: &[rosu_tracker::acceptor::Header]) -> Vec<(String, String)> {
    headers.iter().map(|h| (h.name.clone(), h.value.clone())).collect()
}

#[test]
fn every_feed_has_its_path() {
    assert_eq!(route("/"), Some(WsKind::User));
    assert_eq!(route("/tops"), Some(WsKind::Tops));
    assert_eq!(route("/firsts"), Some(WsKind::Firsts));
    assert_eq!(route("/recent"), Some(WsKind::Recent));
}

#[test]
fn paths_and_feeds_match_one_to_one() {
    for kind in [WsKind::User, WsKind::Tops, WsKind::Firsts, WsKind::Recent] {
        assert_eq!(route(endpoint(kind)), Some(kind));
    }
    assert_eq!(endpoint(WsKind::User), USER_ENDPOINT);
    assert_eq!(endpoint(WsKind::Tops), TOPS_ENDPOINT);
    assert_eq!(endpoint(WsKind::Firsts), FIRSTS_ENDPOINT);
    assert_eq!(endpoint(WsKind::Recent), RECENT_ENDPOINT);
}

#[test]
fn unknown_paths_name_no_feed() {
    assert_eq!(route("/bogus"), None);
    assert_eq!(route(""), None);
    assert_eq!(route("/tops/"), None);
    assert_eq!(route("/Tops"), None);
    assert_eq!(route("tops"), None);
    assert_eq!(route("//"), None);
    assert_eq!(route("/recent?x=1"), None);
    assert_eq!(route("/f\u{ef}rsts"), None);
}

#[test]
fn unknown_path_is_rejected_and_never_registered() {
    let mut registry: Registry<u32> = Registry::new();
    match serve("/bogus", Some(SAMPLE_KEY.as_bytes())) {
        Ok(accepted) => registry.register(WsClient { kind: accepted.kind, client: 1 }),
        Err(rejection) => {
            assert_eq!(rejection, Rejection::NotFound);
            assert_eq!(rejection.status(), 404);
            assert_eq!(rejection.message(), "This URI doesn't exist");
        }
    }
    assert_eq!(registry.len(), 0);
    assert_eq!(serve("/bogus", None).unwrap_err(), Rejection::NotFound);
}

#[test]
fn known_path_is_accepted_for_its_feed() {
    let mut registry: Registry<u32> = Registry::new();
    let accepted = serve("/recent", Some(SAMPLE_KEY.as_bytes())).unwrap();
    assert_eq!(accepted.kind, WsKind::Recent);
    registry.register(WsClient { kind: accepted.kind, client: 9 });
    assert_eq!(registry.len(), 1);
    assert_eq!(registry.kind_at(0), Some(WsKind::Recent));
}

#[test]
fn handshake_reply_answers_the_key() {
    let accepted = serve_ws(WsKind::Tops, Some(SAMPLE_KEY.as_bytes())).unwrap();
    assert_eq!(accepted.kind, WsKind::Tops);
    assert_eq!(accepted.reply.status, 101);
    assert_eq!(accepted.reply.status, SWITCHING_PROTOCOLS);
    assert_eq!(
        header_pairs(&accepted.reply.headers),
        vec![
            ("connection".to_string(), "Upgrade".to_string()),
            ("upgrade".to_string(), "websocket".to_string()),
            ("sec-websocket-accept".to_string(), SAMPLE_ACCEPT.to_string()),
        ]
    );
}

#[test]
fn accept_value_is_derived_not_echoed() {
    let accepted = serve("/", Some(SAMPLE_KEY.as_bytes())).unwrap();
    let accept = &accepted.reply.headers[2].value;
    assert_ne!(accept, SAMPLE_KEY);
    assert_eq!(accept, SAMPLE_ACCEPT);
    let other = serve("/", Some(b"x3JJHMbDL1EzLkh9GBhXDw==")).unwrap();
    assert_eq!(other.reply.headers[2].value, "HSmrc0sMlYUkAGmm5OPpG2HaGWk=");
}

#[test]
fn request_without_a_key_is_rejected() {
    let rejection = serve("/tops", None).unwrap_err();
    assert_eq!(rejection, Rejection::MissingKey);
    assert_eq!(rejection.status(), 400);
    assert_eq!(rejection.message(), "The request has no Sec-WebSocket-Key");
    assert_eq!(serve_ws(WsKind::User, None).unwrap_err(), Rejection::MissingKey);
}

#[test]
fn status_codes() {
    assert_eq!(SWITCHING_PROTOCOLS, 101);
    assert_eq!(NOT_FOUND, 404);
    assert_eq!(BAD_REQUEST, 400);
}

#[test]
fn addresses_are_base_and_path() {
    assert_eq!(BASE_IP, "127.0.0.1:7272");
    assert_eq!(BASE_URI, format!("ws://{}", BASE_IP));
    assert_eq!(USER_URI, format!("{}{}", BASE_URI, USER_ENDPOINT));
    assert_eq!(TOPS_URI, format!("{}{}", BASE_URI, TOPS_ENDPOINT));
    assert_eq!(FIRSTS_URI, format!("{}{}", BASE_URI, FIRSTS_ENDPOINT));
    assert_eq!(RECENT_URI, format!("{}{}", BASE_URI, RECENT_ENDPOINT));
    for kind in [WsKind::User, WsKind::Tops, WsKind::Firsts, WsKind::Recent] {
        assert_eq!(uri(kind), format!("{}{}", BASE_URI, endpoint(kind)));
    }
    assert_eq!(CONFIG_VERSION, 1);
    assert_eq!(APP_ID, "com.chiffa.rosuTracker");
}
