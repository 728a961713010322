//! The credentials record and a two-way choice.

use vstd::prelude::*;

verus! {

/// What the poller needs to reach the statistics service: the client's
/// identifier and secret, and the name of the user to track.
#[derive(Clone, Debug)]
pub struct Api {
    pub id: String,
    pub secret: String,
    pub username: String,
}

/// The three texts of an `Api`.
pub struct ApiView {
    pub id: Seq<char>,
    pub secret: Seq<char>,
    pub username: Seq<char>,
}

impl View for Api {
    type V = ApiView;

    open spec fn view(&self) -> ApiView {
        ApiView { id: self.id@, secret: self.secret@, username: self.username@ }
    }
}

impl Default for Api {
    fn default() -> (api: Self)
        ensures
            api@ == (ApiView { id: Seq::empty(), secret: Seq::empty(), username: Seq::empty() }),
    {
        Api { id: String::new(), secret: String::new(), username: String::new() }
    }
}

/// One of two things.
#[derive(Clone, Debug)]
pub enum Either<L, R> {
    Left(L),
    Right(R),
}

impl<L, R> Either<L, R> {
    /// Whether this is the left thing.
    pub fn is_left(&self) -> (left: bool)
        ensures
            left == (*self is Left),
    {
        match self {
            Either::Left(_) => true,
            Either::Right(_) => false,
        }
    }

    /// The left thing, if this is one.
    pub fn left(self) -> (value: Option<L>)
        ensures
            value == match self {
                Either::Left(l) => Some(l),
                Either::Right(_) => None,
            },
    {
        match self {
            Either::Left(l) => Some(l),
            Either::Right(_) => None,
        }
    }

    /// The right thing, if this is one.
    pub fn right(self) -> (value: Option<R>)
        ensures
            value == match self {
                Either::Left(_) => None,
                Either::Right(r) => Some(r),
            },
    {
        match self {
            Either::Left(_) => None,
            Either::Right(r) => Some(r),
        }
    }
}

} // verus!
