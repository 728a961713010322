//! What this crate takes on trust from the crates it is built on.
//!
//! Each item below states a contract that is believed, not proved. The bodies
//! only make the outside call.

use crate::structs::list_view;
use rosu_v2::model::score::Score;
use rosu_v2::model::user::UserExtended;
use vstd::prelude::*;

verus! {

/// A user profile as `rosu_v2` decodes it. Nothing inside it is visible here.
#[verifier::external_type_specification]
#[verifier::external_body]
pub struct ExUserExtended(rosu_v2::model::user::UserExtended);

/// One score as `rosu_v2` decodes it. Nothing inside it is visible here.
#[verifier::external_type_specification]
#[verifier::external_body]
pub struct ExScore(rosu_v2::model::score::Score);

/// The error of `serde_json`.
#[verifier::external_type_specification]
#[verifier::external_body]
pub struct ExJsonError(serde_json::Error);

/// The JSON text that `serde_json::to_string` gives for a profile slot, or
/// `None` where it fails.
pub uninterp spec fn profile_json(profile: Option<UserExtended>) -> Option<Seq<char>>;

/// The JSON text that `serde_json::to_string` gives for a score-list slot, or
/// `None` where it fails.
pub uninterp spec fn scores_json(scores: Option<Seq<Score>>) -> Option<Seq<char>>;

/// The profile that `serde_json::from_str` reads out of a text, or `None`
/// where it rejects the text.
pub uninterp spec fn decoded_profile(text: Seq<char>) -> Option<UserExtended>;

/// Whether `==`, as `rosu_v2` derives it for the statistics block, holds
/// between the blocks of two profiles.
pub uninterp spec fn same_statistics(held: UserExtended, fetched: UserExtended) -> bool;

/// Whether `==` holds between the performance-point totals in the statistics
/// blocks of two profiles; two profiles without a block count as equal.
pub uninterp spec fn same_points(held: UserExtended, fetched: UserExtended) -> bool;

/// The number of first places that a profile states, if it states one.
pub uninterp spec fn first_places_of(profile: UserExtended) -> Option<u32>;

/// The `Sec-WebSocket-Accept` value that `tungstenite` derives from the bytes of
/// a `Sec-WebSocket-Key`.
pub uninterp spec fn accept_key(request_key: Seq<u8>) -> Seq<char>;

/// `Clone` for a profile, as `rosu_v2` derives it. Believed: the copy is the
/// same value.
pub assume_specification[ <UserExtended as Clone>::clone ](profile: &UserExtended) -> (copy:
    UserExtended)
    ensures
        copy == *profile,
;

/// `Clone` for a score, as `rosu_v2` derives it. Believed: the copy is the same
/// value.
pub assume_specification[ <Score as Clone>::clone ](score: &Score) -> (copy: Score)
    ensures
        copy == *score,
;

/// Calls `serde_json::to_string` on a profile slot. Believed: the outcome is
/// fixed by the value, so it is the named `profile_json` of that value.
#[verifier::external_body]
pub(crate) fn encode_profile(profile: &Option<UserExtended>) -> (out: Result<
    String,
    serde_json::Error,
>)
    ensures
        match out {
            Ok(text) => profile_json(*profile) == Some(text@),
            Err(_) => profile_json(*profile).is_none(),
        },
{
    serde_json::to_string(profile)
}

/// Calls `serde_json::to_string` on a score-list slot. Believed: the outcome is
/// fixed by the scores held, so it is the named `scores_json` of them.
#[verifier::external_body]
pub(crate) fn encode_scores(scores: &Option<Vec<Score>>) -> (out: Result<
    String,
    serde_json::Error,
>)
    ensures
        match out {
            Ok(text) => scores_json(list_view(*scores)) == Some(text@),
            Err(_) => scores_json(list_view(*scores)).is_none(),
        },
{
    serde_json::to_string(scores)
}

/// Calls `serde_json::from_str` for a profile. Believed: the outcome is fixed
/// by the text, so it is the named `decoded_profile` of that text.
#[verifier::external_body]
pub(crate) fn decode_profile(text: &str) -> (out: Result<UserExtended, serde_json::Error>)
    ensures
        match out {
            Ok(profile) => decoded_profile(text@) == Some(profile),
            Err(_) => decoded_profile(text@).is_none(),
        },
{
    serde_json::from_str(text)
}

/// Calls `serde_json::from_str` for a list of scores. Nothing is claimed of the
/// outcome, not even that one text always gives one list: where a score writes
/// its mods as a string of acronyms, `rosu_mods` may read past the end of that
/// string.
#[verifier::external_body]
pub(crate) fn decode_scores(text: &str) -> (out: Result<Vec<Score>, serde_json::Error>) {
    serde_json::from_str(text)
}

/// Compares the `statistics` of two `rosu_v2` profiles with the `==` that
/// `rosu_v2` derives for them. Believed: the answer is fixed by the two
/// profiles.
#[verifier::external_body]
pub(crate) fn statistics_eq(held: &UserExtended, fetched: &UserExtended) -> (same: bool)
    ensures
        same == same_statistics(*held, *fetched),
{
    held.statistics == fetched.statistics
}

/// Compares the field `pp` of the `statistics` of two `rosu_v2` profiles with
/// std's `==`. Believed: the answer is fixed by the two profiles; and since the
/// `==` that `rosu_v2` derives for the block compares this field among the
/// others, blocks that are equal have equal totals.
#[verifier::external_body]
pub(crate) fn points_eq(held: &UserExtended, fetched: &UserExtended) -> (same: bool)
    ensures
        same == same_points(*held, *fetched),
        same_statistics(*held, *fetched) ==> same,
{
    held.statistics.as_ref().map(|block| block.pp) == fetched.statistics.as_ref().map(|block| block.pp)
}

/// Reads the field `scores_first_count` of a `rosu_v2` profile. Believed: the
/// answer is fixed by the profile.
#[verifier::external_body]
pub(crate) fn first_place_count(profile: &UserExtended) -> (count: Option<u32>)
    ensures
        count == first_places_of(*profile),
{
    profile.scores_first_count
}

/// Calls `tungstenite::handshake::derive_accept_key`. Believed: the value is
/// fixed by the key's bytes, so it is the named `accept_key` of them.
#[verifier::external_body]
pub(crate) fn derive_accept_key(request_key: &[u8]) -> (accept: String)
    ensures
        accept@ == accept_key(request_key@),
{
    tokio_tungstenite::tungstenite::handshake::derive_accept_key(request_key)
}

} // verus!
