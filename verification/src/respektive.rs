//! Score ranks as the ranking service reports them.

use crate::text::{decimal_digits, push_decimal};
use vstd::prelude::*;
use vstd::std_specs::convert::FromSpecImpl;
use vstd::string::*;

verus! {

/// The best score rank a user ever held.
#[derive(Clone, Debug, PartialEq)]
pub struct RespektiveUserRankHighest {
    pub rank: u32,
    pub updated_at: String,
}

/// One day of a user's rank history.
#[derive(Clone, Debug, PartialEq)]
pub struct RankHistoryEntry {
    pub rank: Option<u32>,
    pub date: String,
}

/// A user as the ranking service reports it. A rank of zero stands for no
/// rank, so a rank that is present is never zero.
#[derive(Clone, Debug, PartialEq)]
pub struct RespektiveUser {
    pub rank: Option<u32>,
    pub user_id: u32,
    pub rank_highest: Option<RespektiveUserRankHighest>,
    pub rank_history: Option<Vec<RankHistoryEntry>>,
}

/// The rank that a reported number stands for: zero stands for none.
pub open spec fn rank_of(raw: u32) -> Option<u32> {
    if raw == 0 {
        None
    } else {
        Some(raw)
    }
}

/// Reads a reported rank: the service writes zero where a user has none.
pub fn zero_as_none(raw: u32) -> (rank: Option<u32>)
    ensures
        rank == rank_of(raw),
{
    if raw == 0 {
        None
    } else {
        Some(raw)
    }
}

impl RespektiveUser {
    /// A rank that is present is not zero.
    pub open spec fn wf(self) -> bool {
        self.rank != Some(0u32)
    }

    /// The user holds a rank now or held one before.
    pub open spec fn ranked(self) -> bool {
        self.rank.is_some() || self.rank_highest.is_some()
    }

    /// A user from the values as the service reports them.
    pub fn new(
        raw_rank: u32,
        user_id: u32,
        rank_highest: Option<RespektiveUserRankHighest>,
        rank_history: Option<Vec<RankHistoryEntry>>,
    ) -> (user: Self)
        ensures
            user.wf(),
            user == (RespektiveUser { rank: rank_of(raw_rank), user_id, rank_highest, rank_history }),
    {
        RespektiveUser { rank: zero_as_none(raw_rank), user_id, rank_highest, rank_history }
    }

    /// Whether the user holds a rank now or held one before.
    pub fn is_ranked(&self) -> (ranked: bool)
        ensures
            ranked == self.ranked(),
    {
        self.rank.is_some() || self.rank_highest.is_some()
    }
}

/// The users of one answer, handed out one by one in the order of the answer.
#[derive(Debug)]
pub struct RespektiveUsers {
    pub inner: Vec<RespektiveUser>,
}

impl View for RespektiveUsers {
    type V = Seq<RespektiveUser>;

    /// The users that have not been handed out yet.
    open spec fn view(&self) -> Seq<RespektiveUser> {
        self.inner@
    }
}

impl From<Vec<RespektiveUser>> for RespektiveUsers {
    fn from(users: Vec<RespektiveUser>) -> (out: Self) {
        Self { inner: users }
    }
}

impl FromSpecImpl<Vec<RespektiveUser>> for RespektiveUsers {
    open spec fn obeys_from_spec() -> bool {
        true
    }

    open spec fn from_spec(users: Vec<RespektiveUser>) -> Self {
        RespektiveUsers { inner: users }
    }
}

/// What the next call of `next` hands out: nothing once all users are out;
/// else the first user that is left, or an empty place for it where it never
/// held a rank.
pub open spec fn handed_out(left: Seq<RespektiveUser>) -> Option<Option<RespektiveUser>> {
    if left.len() == 0 {
        None
    } else if left[0].ranked() {
        Some(Some(left[0]))
    } else {
        Some(None)
    }
}

impl RespektiveUsers {
    /// The number of users that have not been handed out yet.
    pub fn len(&self) -> (n: usize)
        ensures
            n == self@.len(),
    {
        self.inner.len()
    }

    /// Hands out the next user. A user that never held a rank gives an empty
    /// place, so the places still line up with the users that were asked for.
    pub fn next(&mut self) -> (item: Option<Option<RespektiveUser>>)
        ensures
            item == handed_out(old(self)@),
            final(self)@ == if old(self)@.len() == 0 {
                old(self)@
            } else {
                old(self)@.skip(1)
            },
    {
        if self.inner.len() == 0 {
            return None;
        }
        let user = self.inner.remove(0);
        assert(self.inner@ == old(self)@.skip(1));
        if user.is_ranked() {
            Some(Some(user))
        } else {
            Some(None)
        }
    }
}

/// The address at which the ranking service reports on a user.
pub open spec fn respektive_url_of(user_id: u32) -> Seq<char> {
    "https://score.respektive.pw/u/"@ + decimal_digits(user_id as nat)
}

/// The address at which the ranking service reports on a user.
pub fn respektive_url(user_id: u32) -> (url: String)
    ensures
        url@ == respektive_url_of(user_id),
{
    let mut url = "https://score.respektive.pw/u/".to_owned();
    push_decimal(&mut url, user_id as u64);
    url
}

/// Handing out goes through the users in order: after `k` calls what is left
/// are the users from position `k` on, and the call after that hands out the
/// user at position `k`.
pub proof fn law_users_come_in_order(users: Seq<RespektiveUser>, k: int)
    requires
        0 <= k < users.len(),
    ensures
        handed_out(users.skip(k)) == Some(
            if users[k].ranked() {
                Some(users[k])
            } else {
                None
            },
        ),
        users.skip(k).skip(1) == users.skip(k + 1),
{
    assert(users.skip(k)[0] == users[k]);
}

} // verus!
