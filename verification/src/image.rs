//! Where the cover of a beatmap set is found.

use crate::text::{decimal_digits, push_decimal};
use vstd::prelude::*;
use vstd::string::*;

verus! {

/// What every cover address starts with.
pub const BASE_COVER_URL: &'static str = "http://assets.ppy.sh/beatmaps/";

/// What every cover address ends with.
pub const END_COVER_URL: &'static str = "/covers/cover.jpg";

/// The port to dial where an address names none.
pub const DEFAULT_PORT: u16 = 80;

/// The address of the cover of a beatmap set.
pub open spec fn cover_url_of(beatmapset_id: u32) -> Seq<char> {
    BASE_COVER_URL@ + decimal_digits(beatmapset_id as nat) + END_COVER_URL@
}

/// The address of the cover of a beatmap set.
pub fn form_url(beatmapset_id: u32) -> (url: String)
    ensures
        url@ == cover_url_of(beatmapset_id),
{
    let mut url = BASE_COVER_URL.to_owned();
    push_decimal(&mut url, beatmapset_id as u64);
    url.append(END_COVER_URL);
    url
}

/// The port to dial: the one the address names, or the default.
pub fn port_or_default(port: Option<u16>) -> (dial: u16)
    ensures
        dial == match port {
            Some(p) => p,
            None => DEFAULT_PORT,
        },
{
    match port {
        Some(p) => p,
        None => DEFAULT_PORT,
    }
}

} // verus!
