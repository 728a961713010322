//! The shared records: the feed kinds, a subscriber, the tracked snapshot.

use rosu_v2::model::score::Score;
use rosu_v2::model::user::UserExtended;
use vstd::prelude::*;

verus! {

/// The feed a subscriber is bound to.
#[derive(Clone, Copy, PartialEq, Eq, Debug, Structural)]
pub enum WsKind {
    User,
    Tops,
    Firsts,
    Recent,
}

/// One subscriber: the feed it asked for and the connection to write to.
#[derive(Debug)]
pub struct WsClient<C> {
    pub kind: WsKind,
    pub client: C,
}

/// The latest known state of the tracked user. Every slot is empty until its
/// first successful fetch.
#[derive(Clone, Debug, PartialEq)]
pub struct TrackedData {
    pub user_extended: Option<UserExtended>,
    pub user_scores: Option<Vec<Score>>,
    pub user_firsts: Option<Vec<Score>>,
    pub user_recent: Option<Vec<Score>>,
}

/// What a snapshot holds, with each list as a sequence.
pub struct Snapshot {
    pub profile: Option<UserExtended>,
    pub tops: Option<Seq<Score>>,
    pub firsts: Option<Seq<Score>>,
    pub recent: Option<Seq<Score>>,
}

/// What a score-list slot holds, as a sequence.
pub open spec fn list_view(scores: Option<Vec<Score>>) -> Option<Seq<Score>> {
    match scores {
        Some(list) => Some(list@),
        None => None,
    }
}

impl View for TrackedData {
    type V = Snapshot;

    open spec fn view(&self) -> Snapshot {
        Snapshot {
            profile: self.user_extended,
            tops: list_view(self.user_scores),
            firsts: list_view(self.user_firsts),
            recent: list_view(self.user_recent),
        }
    }
}

impl Snapshot {
    /// The snapshot before anything was fetched.
    pub open spec fn empty() -> Snapshot {
        Snapshot { profile: None, tops: None, firsts: None, recent: None }
    }

    /// This snapshot with the score list of one feed replaced. The profile feed
    /// has no list, so for it nothing changes.
    pub open spec fn with_scores(self, kind: WsKind, list: Seq<Score>) -> Snapshot {
        match kind {
            WsKind::User => self,
            WsKind::Tops => Snapshot { tops: Some(list), ..self },
            WsKind::Firsts => Snapshot { firsts: Some(list), ..self },
            WsKind::Recent => Snapshot { recent: Some(list), ..self },
        }
    }
}

/// A copy of a list of scores.
pub fn copy_list(list: &Vec<Score>) -> (copy: Vec<Score>)
    ensures
        copy@ == list@,
{
    let mut out: Vec<Score> = Vec::new();
    let mut i: usize = 0;
    while i < list.len()
        invariant
            i <= list.len(),
            out@ == list@.take(i as int),
        decreases list.len() - i,
    {
        out.push(list[i].clone());
        assert(list@.take(i + 1) == list@.take(i as int).push(list@[i as int]));
        i += 1;
    }
    assert(list@.take(list.len() as int) == list@);
    out
}

/// A copy of a score-list slot.
pub fn copy_scores(scores: &Option<Vec<Score>>) -> (copy: Option<Vec<Score>>)
    ensures
        list_view(copy) == list_view(*scores),
{
    match scores {
        Some(list) => Some(copy_list(list)),
        None => None,
    }
}

impl TrackedData {
    /// A snapshot in which nothing has been fetched yet.
    pub fn new() -> (data: Self)
        ensures
            data@ == Snapshot::empty(),
    {
        Self { user_extended: None, user_scores: None, user_firsts: None, user_recent: None }
    }

    /// A snapshot that holds exactly the four given slots.
    pub fn new_with(
        user_extended: Option<UserExtended>,
        user_scores: Option<Vec<Score>>,
        user_firsts: Option<Vec<Score>>,
        user_recent: Option<Vec<Score>>,
    ) -> (data: Self)
        ensures
            data.user_extended == user_extended,
            data.user_scores == user_scores,
            data.user_firsts == user_firsts,
            data.user_recent == user_recent,
    {
        Self { user_extended, user_scores, user_firsts, user_recent }
    }

    /// Replaces all four slots as one group.
    pub fn insert(
        &mut self,
        user_extended: Option<UserExtended>,
        user_scores: Option<Vec<Score>>,
        user_firsts: Option<Vec<Score>>,
        user_recent: Option<Vec<Score>>,
    )
        ensures
            final(self).user_extended == user_extended,
            final(self).user_scores == user_scores,
            final(self).user_firsts == user_firsts,
            final(self).user_recent == user_recent,
    {
        self.user_extended = user_extended;
        self.user_scores = user_scores;
        self.user_firsts = user_firsts;
        self.user_recent = user_recent;
    }

    /// Whether a profile has been fetched.
    pub fn has_profile(&self) -> (has: bool)
        ensures
            has == self@.profile.is_some(),
    {
        self.user_extended.is_some()
    }

    /// A copy of the whole snapshot, taken in one step.
    pub fn read(&self) -> (copy: Self)
        ensures
            copy@ == self@,
    {
        let user_extended = match &self.user_extended {
            Some(profile) => Some(profile.clone()),
            None => None,
        };
        Self {
            user_extended,
            user_scores: copy_scores(&self.user_scores),
            user_firsts: copy_scores(&self.user_firsts),
            user_recent: copy_scores(&self.user_recent),
        }
    }

    /// Replaces the profile and nothing else.
    pub fn replace_profile(&mut self, profile: UserExtended)
        ensures
            final(self)@ == (Snapshot { profile: Some(profile), ..old(self)@ }),
    {
        self.user_extended = Some(profile);
    }

    /// Replaces the score list of one feed and nothing else. Returns whether
    /// the feed has a list: the profile feed has none, and for it the snapshot
    /// stays as it was.
    pub fn replace_scores(&mut self, kind: WsKind, list: Vec<Score>) -> (stored: bool)
        ensures
            stored == (kind != WsKind::User),
            final(self)@ == old(self)@.with_scores(kind, list@),
    {
        match kind {
            WsKind::User => false,
            WsKind::Tops => {
                self.user_scores = Some(list);
                true
            },
            WsKind::Firsts => {
                self.user_firsts = Some(list);
                true
            },
            WsKind::Recent => {
                self.user_recent = Some(list);
                true
            },
        }
    }
}

} // verus!
