//! Scoring of two availabilities by the hours they share.

use crate::schedule::{week_overlap, Availability, WeekSchedule};
use crate::user::UserId;
use vstd::prelude::*;

verus! {

/// How well two availabilities fit. Scores are ordered: no affinity is the
/// least of them, and more hours are more.
#[derive(Clone, Copy, Debug, PartialEq, Eq, Structural, PartialOrd, Ord)]
pub enum Score {
    /// At least one side takes no part in matching. This ranks below every
    /// count of hours, zero included.
    NoAffinity,
    /// Number of hours of the week in which both sides are available.
    Hours(u32),
}

impl View for Score {
    type V = Option<nat>;

    /// `None` for no affinity, else the number of shared hours.
    open spec fn view(&self) -> Option<nat> {
        match *self {
            Score::NoAffinity => None,
            Score::Hours(n) => Some(n as nat),
        }
    }
}

/// The score of two availabilities: none if either side is never available,
/// else the hours of the week that the two schedules share.
pub open spec fn spec_score(a: Availability, b: Availability) -> Option<nat> {
    match (a, b) {
        (Availability::Weekly(x), Availability::Weekly(y)) => Some(week_overlap(x@, y@)),
        _ => None,
    }
}

/// Scores two availabilities by the hours they share.
pub fn score(a: &Availability, b: &Availability) -> (s: Score)
    ensures
        s@ == spec_score(*a, *b),
{
    match (a.effective_schedule(), b.effective_schedule()) {
        (Some(x), Some(y)) => Score::Hours(x.week_overlap(&y)),
        _ => Score::NoAffinity,
    }
}

/// Whoever is never available has no affinity with anyone, on either side
/// of the comparison.
pub proof fn lemma_score_never(x: Availability)
    ensures
        spec_score(Availability::Never, x) == None::<nat>,
        spec_score(x, Availability::Never) == None::<nat>,
{
}

/// The score does not depend on the order of the two sides.
pub proof fn lemma_score_symmetric(a: Availability, b: Availability)
    ensures
        spec_score(a, b) == spec_score(b, a),
{
    match (a, b) {
        (Availability::Weekly(x), Availability::Weekly(y)) => {
            crate::schedule::lemma_week_overlap_symmetric(x, y);
        },
        _ => {},
    }
}

/// A score is never more than the 168 hours of a week.
pub proof fn lemma_score_bound(a: Availability, b: Availability)
    ensures
        spec_score(a, b) matches Some(hours) ==> hours <= 168,
{
    match (a, b) {
        (Availability::Weekly(x), Availability::Weekly(y)) => {
            crate::schedule::lemma_week_overlap_bound(x, y);
        },
        _ => {},
    }
}

/// Two weekly schedules always have a score, even when they share no hour.
pub proof fn lemma_score_weekly(x: WeekSchedule, y: WeekSchedule)
    ensures
        spec_score(Availability::Weekly(x), Availability::Weekly(y)) == Some(
            week_overlap(x@, y@),
        ),
{
}

/// A candidate's place in a ranking: who, and how many hours are shared.
#[derive(Clone, Copy, Debug, PartialEq, Eq, Structural)]
pub struct UserAffinity {
    pub user: UserId,
    pub affinity: u32,
}

} // verus!
