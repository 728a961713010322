//! The fixed address, paths and identifiers.

use crate::structs::WsKind;
use vstd::prelude::*;

verus! {

/// The address the server listens on.
pub const BASE_IP: &'static str = "127.0.0.1:7272";

/// The address as a viewer dials it.
pub const BASE_URI: &'static str = "ws://127.0.0.1:7272";

/// The path of the profile feed.
pub const USER_ENDPOINT: &'static str = "/";

/// The path of the top-scores feed.
pub const TOPS_ENDPOINT: &'static str = "/tops";

/// The path of the first-places feed.
pub const FIRSTS_ENDPOINT: &'static str = "/firsts";

/// The path of the recent-scores feed.
pub const RECENT_ENDPOINT: &'static str = "/recent";

/// The profile feed as a viewer dials it.
pub const USER_URI: &'static str = "ws://127.0.0.1:7272/";

/// The top-scores feed as a viewer dials it.
pub const TOPS_URI: &'static str = "ws://127.0.0.1:7272/tops";

/// The first-places feed as a viewer dials it.
pub const FIRSTS_URI: &'static str = "ws://127.0.0.1:7272/firsts";

/// The recent-scores feed as a viewer dials it.
pub const RECENT_URI: &'static str = "ws://127.0.0.1:7272/recent";

/// The version of the stored configuration.
pub const CONFIG_VERSION: u64 = 1;

/// The application's identifier.
pub const APP_ID: &'static str = "com.chiffa.rosuTracker";

/// The path of a feed.
pub open spec fn endpoint_of(kind: WsKind) -> Seq<char> {
    match kind {
        WsKind::User => USER_ENDPOINT@,
        WsKind::Tops => TOPS_ENDPOINT@,
        WsKind::Firsts => FIRSTS_ENDPOINT@,
        WsKind::Recent => RECENT_ENDPOINT@,
    }
}

/// The address of a feed as a viewer dials it.
pub open spec fn uri_of(kind: WsKind) -> Seq<char> {
    match kind {
        WsKind::User => USER_URI@,
        WsKind::Tops => TOPS_URI@,
        WsKind::Firsts => FIRSTS_URI@,
        WsKind::Recent => RECENT_URI@,
    }
}

/// The path of a feed.
pub fn endpoint(kind: WsKind) -> (path: &'static str)
    ensures
        path@ == endpoint_of(kind),
{
    match kind {
        WsKind::User => USER_ENDPOINT,
        WsKind::Tops => TOPS_ENDPOINT,
        WsKind::Firsts => FIRSTS_ENDPOINT,
        WsKind::Recent => RECENT_ENDPOINT,
    }
}

/// The address of a feed as a viewer dials it.
pub fn uri(kind: WsKind) -> (address: &'static str)
    ensures
        address@ == uri_of(kind),
{
    match kind {
        WsKind::User => USER_URI,
        WsKind::Tops => TOPS_URI,
        WsKind::Firsts => FIRSTS_URI,
        WsKind::Recent => RECENT_URI,
    }
}

/// Makes the characters of the fixed strings known.
pub proof fn reveal_constants()
    ensures
        BASE_IP@ == seq!['1', '2', '7', '.', '0', '.', '0', '.', '1', ':', '7', '2', '7', '2'],
        BASE_URI@ == seq!['w', 's', ':', '/', '/'] + BASE_IP@,
        USER_ENDPOINT@ == seq!['/'],
        TOPS_ENDPOINT@ == seq!['/', 't', 'o', 'p', 's'],
        FIRSTS_ENDPOINT@ == seq!['/', 'f', 'i', 'r', 's', 't', 's'],
        RECENT_ENDPOINT@ == seq!['/', 'r', 'e', 'c', 'e', 'n', 't'],
        USER_URI@ == BASE_URI@ + USER_ENDPOINT@,
        TOPS_URI@ == BASE_URI@ + TOPS_ENDPOINT@,
        FIRSTS_URI@ == BASE_URI@ + FIRSTS_ENDPOINT@,
        RECENT_URI@ == BASE_URI@ + RECENT_ENDPOINT@,
{
    reveal_strlit("127.0.0.1:7272");
    reveal_strlit("ws://127.0.0.1:7272");
    reveal_strlit("/");
    reveal_strlit("/tops");
    reveal_strlit("/firsts");
    reveal_strlit("/recent");
    reveal_strlit("ws://127.0.0.1:7272/");
    reveal_strlit("ws://127.0.0.1:7272/tops");
    reveal_strlit("ws://127.0.0.1:7272/firsts");
    reveal_strlit("ws://127.0.0.1:7272/recent");
    assert(BASE_IP@ =~= seq!['1', '2', '7', '.', '0', '.', '0', '.', '1', ':', '7', '2', '7', '2']);
    assert(BASE_URI@ =~= seq!['w', 's', ':', '/', '/'] + BASE_IP@);
    assert(USER_ENDPOINT@ =~= seq!['/']);
    assert(TOPS_ENDPOINT@ =~= seq!['/', 't', 'o', 'p', 's']);
    assert(FIRSTS_ENDPOINT@ =~= seq!['/', 'f', 'i', 'r', 's', 't', 's']);
    assert(RECENT_ENDPOINT@ =~= seq!['/', 'r', 'e', 'c', 'e', 'n', 't']);
    assert(USER_URI@ =~= BASE_URI@ + USER_ENDPOINT@);
    assert(TOPS_URI@ =~= BASE_URI@ + TOPS_ENDPOINT@);
    assert(FIRSTS_URI@ =~= BASE_URI@ + FIRSTS_ENDPOINT@);
    assert(RECENT_URI@ =~= BASE_URI@ + RECENT_ENDPOINT@);
}

/// Every feed is dialled at the base address followed by its path.
pub proof fn law_uri_is_base_and_path(kind: WsKind)
    ensures
        uri_of(kind) == BASE_URI@ + endpoint_of(kind),
{
    reveal_constants();
}

} // verus!
