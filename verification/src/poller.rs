//! The poller: what to fetch on a tick, what to store of it, and how long to
//! wait before the next one.

use crate::outside::{
    first_place_count, first_places_of, points_eq, same_points, same_statistics, statistics_eq,
};
use crate::structs::{list_view, Snapshot, TrackedData};
use rosu_v2::model::score::Score;
use rosu_v2::model::user::UserExtended;
use vstd::prelude::*;

verus! {

/// How many top scores one fetch asks for.
pub const TOP_SCORES_LIMIT: usize = 100;

/// How many recent scores one fetch asks for.
pub const RECENT_SCORES_LIMIT: usize = 20;

/// The two waits of the poller, in seconds.
#[derive(Clone, Copy, PartialEq, Eq, Debug, Structural)]
pub struct Timing {
    /// The wait while no profile has been stored yet.
    pub seed_delay_secs: u64,
    /// The wait between two ticks once a profile is stored.
    pub poll_interval_secs: u64,
}

impl Default for Timing {
    fn default() -> (timing: Self)
        ensures
            timing == (Timing { seed_delay_secs: 1, poll_interval_secs: 5 }),
    {
        Timing { seed_delay_secs: 1, poll_interval_secs: 5 }
    }
}

/// The two states of the poller.
#[derive(Clone, Copy, PartialEq, Eq, Debug, Structural)]
pub enum PollerState {
    /// No profile has been stored yet.
    Uninitialized,
    /// A profile is stored; each tick compares against it.
    Tracking,
}

/// The score lists to fetch on a tick.
#[derive(Clone, Copy, PartialEq, Eq, Debug, Structural)]
pub struct FetchPlan {
    pub tops: bool,
    pub firsts: bool,
    pub recent: bool,
}

/// What a tick brought back. An absent value was not fetched, or its fetch
/// failed.
#[derive(Debug)]
pub struct Fetched {
    pub profile: Option<UserExtended>,
    pub tops: Option<Vec<Score>>,
    pub firsts: Option<Vec<Score>>,
    pub recent: Option<Vec<Score>>,
}

/// What a tick brought back, with each list as a sequence.
pub struct FetchedView {
    pub profile: Option<UserExtended>,
    pub tops: Option<Seq<Score>>,
    pub firsts: Option<Seq<Score>>,
    pub recent: Option<Seq<Score>>,
}

impl View for Fetched {
    type V = FetchedView;

    open spec fn view(&self) -> FetchedView {
        FetchedView {
            profile: self.profile,
            tops: list_view(self.tops),
            firsts: list_view(self.firsts),
            recent: list_view(self.recent),
        }
    }
}

/// The state that a snapshot puts the poller in.
pub open spec fn state_of(snapshot: Snapshot) -> PollerState {
    if snapshot.profile.is_some() {
        PollerState::Tracking
    } else {
        PollerState::Uninitialized
    }
}

/// The lists to fetch once a profile is held and a new one has come in.
/// Nothing but the recent scores while the two statistics blocks are equal.
/// Where they differ, the top scores if the performance-point total changed,
/// and the first places if the number of first places changed. The recent
/// scores always: nothing tells whether they changed.
pub open spec fn refetch_plan(
    same_block: bool,
    same_total: bool,
    held_firsts: Option<u32>,
    new_firsts: Option<u32>,
) -> FetchPlan {
    FetchPlan {
        tops: !same_block && !same_total,
        firsts: !same_block && held_firsts != new_firsts,
        recent: true,
    }
}

/// The lists to fetch on a tick, given the snapshot and the outcome of the
/// tick's profile fetch. While no profile is stored, none: the first profile
/// is stored alone. Once one is stored, the recent scores on every tick, and
/// the other two as `refetch_plan` says; without a new profile there is
/// nothing to compare, so the other two are left alone.
pub open spec fn plan_of(snapshot: Snapshot, fetched: Option<UserExtended>) -> FetchPlan {
    match (snapshot.profile, fetched) {
        (Some(held), Some(new)) => refetch_plan(
            same_statistics(held, new),
            same_points(held, new),
            first_places_of(held),
            first_places_of(new),
        ),
        (Some(_), None) => FetchPlan { tops: false, firsts: false, recent: true },
        (None, _) => FetchPlan { tops: false, firsts: false, recent: false },
    }
}

/// The slot after a tick: replaced where the list was planned and its fetch
/// succeeded, untouched otherwise.
pub open spec fn slot_after(
    held: Option<Seq<Score>>,
    planned: bool,
    fetched: Option<Seq<Score>>,
) -> Option<Seq<Score>> {
    if planned && fetched.is_some() {
        fetched
    } else {
        held
    }
}

/// The snapshot after a tick. The profile is replaced whenever its fetch
/// succeeded; each list only where the plan asked for it and its fetch
/// succeeded. Whatever failed leaves its slot as it was.
pub open spec fn committed(snapshot: Snapshot, fetched: FetchedView) -> Snapshot {
    let plan = plan_of(snapshot, fetched.profile);
    Snapshot {
        profile: if fetched.profile.is_some() {
            fetched.profile
        } else {
            snapshot.profile
        },
        tops: slot_after(snapshot.tops, plan.tops, fetched.tops),
        firsts: slot_after(snapshot.firsts, plan.firsts, fetched.firsts),
        recent: slot_after(snapshot.recent, plan.recent, fetched.recent),
    }
}

/// The wait after a tick that began in the given state.
pub open spec fn delay_of(state: PollerState, timing: Timing) -> u64 {
    match state {
        PollerState::Uninitialized => timing.seed_delay_secs,
        PollerState::Tracking => timing.poll_interval_secs,
    }
}

/// The state the poller is in.
pub fn poller_state(data: &TrackedData) -> (state: PollerState)
    ensures
        state == state_of(data@),
{
    if data.user_extended.is_some() {
        PollerState::Tracking
    } else {
        PollerState::Uninitialized
    }
}

/// Decides the lists to fetch from what the comparison of the held profile
/// with the new one gave.
pub fn plan_refetch(
    same_block: bool,
    same_total: bool,
    held_firsts: Option<u32>,
    new_firsts: Option<u32>,
) -> (plan: FetchPlan)
    ensures
        plan == refetch_plan(same_block, same_total, held_firsts, new_firsts),
{
    let firsts_changed = !same_option(held_firsts, new_firsts);
    FetchPlan {
        tops: !same_block && !same_total,
        firsts: !same_block && firsts_changed,
        recent: true,
    }
}

fn same_option(a: Option<u32>, b: Option<u32>) -> (same: bool)
    ensures
        same == (a == b),
{
    match (a, b) {
        (Some(x), Some(y)) => x == y,
        (None, None) => true,
        _ => false,
    }
}

/// The point total changed from the held profile to the new one.
pub open spec fn points_changed(snapshot: Snapshot, fetched: Option<UserExtended>) -> bool {
    match (snapshot.profile, fetched) {
        (Some(held), Some(new)) => !same_points(held, new),
        _ => false,
    }
}

/// Decides the lists to fetch on this tick, once the profile fetch has ended.
/// A point total that changed makes the top scores due: with it the statistics
/// block has changed too.
pub fn plan_tick(data: &TrackedData, fetched: &Option<UserExtended>) -> (plan: FetchPlan)
    ensures
        plan == plan_of(data@, *fetched),
        plan.tops == points_changed(data@, *fetched),
{
    match (&data.user_extended, fetched) {
        (Some(held), Some(new)) => plan_refetch(
            statistics_eq(held, new),
            points_eq(held, new),
            first_place_count(held),
            first_place_count(new),
        ),
        (Some(_), None) => FetchPlan { tops: false, firsts: false, recent: true },
        (None, _) => FetchPlan { tops: false, firsts: false, recent: false },
    }
}

/// Stores what a tick brought back and returns the seconds to wait before the
/// next tick. The plan is worked out again from the snapshot as it stood, so a
/// list that was not due is not stored, whoever fetched it.
pub fn apply_tick(data: &mut TrackedData, fetched: Fetched, timing: &Timing) -> (delay_secs: u64)
    ensures
        final(data)@ == committed(old(data)@, fetched@),
        delay_secs == delay_of(state_of(old(data)@), *timing),
{
    let state = poller_state(data);
    let plan = plan_tick(data, &fetched.profile);
    let Fetched { profile, tops, firsts, recent } = fetched;
    if profile.is_some() {
        data.user_extended = profile;
    }
    if plan.tops && tops.is_some() {
        data.user_scores = tops;
    }
    if plan.firsts && firsts.is_some() {
        data.user_firsts = firsts;
    }
    if plan.recent && recent.is_some() {
        data.user_recent = recent;
    }
    match state {
        PollerState::Uninitialized => timing.seed_delay_secs,
        PollerState::Tracking => timing.poll_interval_secs,
    }
}

/// While the statistics block has not changed from one fetched profile to the
/// next, the tick asks for neither the top scores nor the first places, and
/// neither of the two lists is touched, whatever came back.
pub proof fn law_no_change_no_refetch(snapshot: Snapshot, fetched: FetchedView)
    requires
        snapshot.profile.is_some(),
        fetched.profile.is_some(),
        same_statistics(snapshot.profile.unwrap(), fetched.profile.unwrap()),
    ensures
        !plan_of(snapshot, fetched.profile).tops,
        !plan_of(snapshot, fetched.profile).firsts,
        committed(snapshot, fetched).tops == snapshot.tops,
        committed(snapshot, fetched).firsts == snapshot.firsts,
{
}

/// Where the statistics block changed, and with it the performance-point total
/// but not the number of first places, the top scores are fetched again and
/// the first places are not.
pub proof fn law_points_changed_firsts_unchanged(firsts: Option<u32>)
    ensures
        refetch_plan(false, false, firsts, firsts) == (FetchPlan {
            tops: true,
            firsts: false,
            recent: true,
        }),
{
}

/// Once a profile is stored, one always is: no tick empties the slot, so the
/// poller never leaves the tracking state. And a fetch that failed leaves its
/// slot as it was.
pub proof fn law_failures_keep_what_is_held(snapshot: Snapshot, fetched: FetchedView)
    ensures
        state_of(snapshot) == PollerState::Tracking ==> state_of(committed(snapshot, fetched))
            == PollerState::Tracking,
        fetched.profile.is_none() ==> committed(snapshot, fetched).profile == snapshot.profile,
        fetched.tops.is_none() ==> committed(snapshot, fetched).tops == snapshot.tops,
        fetched.firsts.is_none() ==> committed(snapshot, fetched).firsts == snapshot.firsts,
        fetched.recent.is_none() ==> committed(snapshot, fetched).recent == snapshot.recent,
{
}

/// The first profile is stored alone: a tick that begins without a profile
/// leaves every score list as it was.
pub proof fn law_first_profile_alone(snapshot: Snapshot, fetched: FetchedView)
    requires
        state_of(snapshot) == PollerState::Uninitialized,
    ensures
        committed(snapshot, fetched).tops == snapshot.tops,
        committed(snapshot, fetched).firsts == snapshot.firsts,
        committed(snapshot, fetched).recent == snapshot.recent,
{
}

} // verus!
