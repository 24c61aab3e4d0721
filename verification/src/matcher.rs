//! Ranking of candidates by the hours they share with a subject.

use crate::affinity::{lemma_score_bound, score, spec_score, Score, UserAffinity};
use crate::schedule::Availability;
use crate::user::UserId;
use vstd::prelude::*;
use vstd::relations::{sorted_by, total_ordering};
use vstd::seq_lib::{
    lemma_sorted_unique, to_multiset_build, to_multiset_contains, to_multiset_insert,
    to_multiset_len, to_multiset_remove,
};

verus! {

/// A user together with the availability that user has stored.
#[derive(Clone, Copy, Debug, PartialEq, Eq, Structural)]
pub struct Candidate {
    pub user: UserId,
    pub availability: Availability,
}

/// The entry that `candidate` brings into the ranking of `subject`: none for
/// the subject itself, for a pair without affinity, and for a pair that
/// shares fewer than `min_hours` hours.
pub open spec fn entry_of(subject: Candidate, candidate: Candidate, min_hours: u32) -> Option<
    UserAffinity,
> {
    if candidate.user == subject.user {
        None
    } else {
        match spec_score(subject.availability, candidate.availability) {
            Some(hours) => if hours >= min_hours {
                Some(UserAffinity { user: candidate.user, affinity: hours as u32 })
            } else {
                None
            },
            None => None,
        }
    }
}

/// The entries of all candidates that take part in the ranking, in the order
/// of the candidates.
pub open spec fn entries_of(subject: Candidate, candidates: Seq<Candidate>, min_hours: u32) -> Seq<
    UserAffinity,
>
    decreases candidates.len(),
{
    if candidates.len() == 0 {
        Seq::empty()
    } else {
        let rest = entries_of(subject, candidates.drop_last(), min_hours);
        match entry_of(subject, candidates.last(), min_hours) {
            Some(entry) => rest.push(entry),
            None => rest,
        }
    }
}

/// Whether `a` may stand before `b` in a ranking: more shared hours first,
/// and among equal hours the smaller user id first.
pub open spec fn ranks_before(a: UserAffinity, b: UserAffinity) -> bool {
    a.affinity > b.affinity || (a.affinity == b.affinity && a.user.0 <= b.user.0)
}

/// Whether every entry of `ranking` may stand before all entries after it.
pub open spec fn is_ranked(ranking: Seq<UserAffinity>) -> bool {
    forall|i: int, j: int| 0 <= i < j < ranking.len() ==> ranks_before(ranking[i], ranking[j])
}

/// Whether `ranking` is the ranking of `candidates` for `subject` with at
/// least `min_hours` shared hours: the entries of the candidates that take
/// part, each as often as it occurs among them, in ranking order.
pub open spec fn is_ranking_of(
    subject: Candidate,
    candidates: Seq<Candidate>,
    min_hours: u32,
    ranking: Seq<UserAffinity>,
) -> bool {
    &&& is_ranked(ranking)
    &&& ranking.to_multiset() == entries_of(subject, candidates, min_hours).to_multiset()
}

/// Whether `a` may stand before `b` in a ranking.
fn comes_before(a: &UserAffinity, b: &UserAffinity) -> (r: bool)
    ensures
        r == ranks_before(*a, *b),
{
    a.affinity > b.affinity || (a.affinity == b.affinity && a.user.0 <= b.user.0)
}

/// Puts `entry` into a ranked list at the place that keeps it ranked.
fn insert_ranked(ranking: &mut Vec<UserAffinity>, entry: UserAffinity)
    requires
        is_ranked(old(ranking)@),
    ensures
        is_ranked(final(ranking)@),
        final(ranking)@.to_multiset() == old(ranking)@.to_multiset().insert(entry),
{
    let mut at: usize = 0;
    while at < ranking.len() && comes_before(&ranking[at], &entry)
        invariant
            at <= ranking.len(),
            *ranking == *old(ranking),
            forall|k: int| 0 <= k < at ==> ranks_before(ranking[k], entry),
        decreases ranking.len() - at,
    {
        at += 1;
    }
    proof {
        let before = ranking@;
        let after = before.insert(at as int, entry);
        to_multiset_insert(before, at as int, entry);
        assert forall|i: int, j: int| 0 <= i < j < after.len() implies ranks_before(
            after[i],
            after[j],
        ) by {
            if i == at {
                assert(after[j] == before[j - 1]);
                assert(ranks_before(entry, before[at as int]));
                if j - 1 > at {
                    assert(ranks_before(before[at as int], before[j - 1]));
                }
            } else if j == at {
                assert(after[i] == before[i]);
            } else {
                let bi = if i < at { i } else { i - 1 };
                let bj = if j < at { j } else { j - 1 };
                assert(after[i] == before[bi] && after[j] == before[bj]);
            }
        }
    }
    ranking.insert(at, entry);
}

/// Ranks `candidates` by the hours they share with `subject`, leaving out
/// those that share fewer than `min_hours` hours.
///
/// A candidate takes part unless it has the subject's own id, the pair has
/// no affinity, or the pair shares too few hours. The result holds one
/// entry for each candidate that takes part, most shared hours first, equal
/// hours by ascending user id.
pub fn rank_at_least(subject: &Candidate, candidates: &Vec<Candidate>, min_hours: u32) -> (ranking:
    Vec<UserAffinity>)
    ensures
        is_ranking_of(*subject, candidates@, min_hours, ranking@),
        forall|i: int|
            0 <= i < ranking@.len() ==> ranking@[i].user != subject.user && ranking@[i].affinity
                >= min_hours,
        forall|i: int|
            0 <= i < ranking@.len() ==> exists|j: int|
                0 <= j < candidates@.len() && entry_of(
                    *subject,
                    #[trigger] candidates@[j],
                    min_hours,
                ) == Some(#[trigger] ranking@[i]),
{
    let mut ranking: Vec<UserAffinity> = Vec::new();
    let mut i: usize = 0;
    while i < candidates.len()
        invariant
            i <= candidates.len(),
            is_ranked(ranking@),
            ranking@.to_multiset() == entries_of(
                *subject,
                candidates@.take(i as int),
                min_hours,
            ).to_multiset(),
        decreases candidates.len() - i,
    {
        let candidate = &candidates[i];
        proof {
            assert(candidates@.take(i + 1).drop_last() =~= candidates@.take(i as int));
            assert(candidates@.take(i + 1).last() == *candidate);
        }
        if candidate.user.0 != subject.user.0 {
            match score(&subject.availability, &candidate.availability) {
                Score::Hours(hours) => {
                    if hours >= min_hours {
                        let entry = UserAffinity { user: candidate.user, affinity: hours };
                        proof {
                            to_multiset_build(
                                entries_of(*subject, candidates@.take(i as int), min_hours),
                                entry,
                            );
                        }
                        insert_ranked(&mut ranking, entry);
                    }
                },
                Score::NoAffinity => {},
            }
        }
        i += 1;
    }
    proof {
        assert(candidates@.take(i as int) =~= candidates@);
        lemma_entries_have_sources(*subject, candidates@, min_hours);
        assert forall|k: int| 0 <= k < ranking@.len() implies ranking@[k].user != subject.user
            && ranking@[k].affinity >= min_hours && exists|j: int|
            0 <= j < candidates@.len() && entry_of(*subject, #[trigger] candidates@[j], min_hours)
                == Some(ranking@[k]) by {
            let entry = ranking@[k];
            assert(ranking@.contains(entry));
            to_multiset_contains(ranking@, entry);
            to_multiset_contains(entries_of(*subject, candidates@, min_hours), entry);
        }
    }
    ranking
}

/// Ranks `candidates` by the hours they share with `subject`.
///
/// A candidate takes part unless it has the subject's own id or the pair has
/// no affinity; two weekly schedules that share no hour still take part.
/// The result holds one entry for each candidate that takes part, most
/// shared hours first, equal hours by ascending user id.
pub fn rank(subject: &Candidate, candidates: &Vec<Candidate>) -> (ranking: Vec<UserAffinity>)
    ensures
        is_ranking_of(*subject, candidates@, 0, ranking@),
        forall|i: int| 0 <= i < ranking@.len() ==> ranking@[i].user != subject.user,
        forall|i: int|
            0 <= i < ranking@.len() ==> exists|j: int|
                0 <= j < candidates@.len() && entry_of(*subject, #[trigger] candidates@[j], 0)
                    == Some(#[trigger] ranking@[i]),
{
    rank_at_least(subject, candidates, 0)
}

/// Every entry comes from a candidate that takes part: it never has the
/// subject's id, and it shares at least the hours asked for.
pub proof fn lemma_entries_have_sources(
    subject: Candidate,
    candidates: Seq<Candidate>,
    min_hours: u32,
)
    ensures
        forall|entry: UserAffinity| #[trigger]
            entries_of(subject, candidates, min_hours).contains(entry) ==> entry.user
                != subject.user && entry.affinity >= min_hours && exists|j: int|
                0 <= j < candidates.len() && entry_of(subject, #[trigger] candidates[j], min_hours)
                    == Some(entry),
    decreases candidates.len(),
{
    if candidates.len() > 0 {
        let rest = candidates.drop_last();
        let entries = entries_of(subject, candidates, min_hours);
        lemma_entries_have_sources(subject, rest, min_hours);
        assert forall|entry: UserAffinity| #[trigger] entries.contains(entry) implies entry.user
            != subject.user && entry.affinity >= min_hours && exists|j: int|
            0 <= j < candidates.len() && entry_of(subject, #[trigger] candidates[j], min_hours)
                == Some(entry) by {
            let last = candidates.len() - 1;
            if entry_of(subject, candidates[last], min_hours) == Some(entry) {
                lemma_score_bound(subject.availability, candidates[last].availability);
            } else {
                let k = choose|k: int| 0 <= k < entries.len() && entries[k] == entry;
                assert(entries_of(subject, rest, min_hours)[k] == entry);
                assert(entries_of(subject, rest, min_hours).contains(entry));
                let j = choose|j: int|
                    0 <= j < rest.len() && entry_of(subject, #[trigger] rest[j], min_hours)
                        == Some(entry);
                assert(candidates[j] == rest[j]);
            }
        }
    }
}

/// The ranking order is total: any two entries compare, and two entries that
/// may each stand before the other are the same entry.
pub proof fn lemma_ranks_before_total()
    ensures
        total_ordering(|a: UserAffinity, b: UserAffinity| ranks_before(a, b)),
{
    let leq = |a: UserAffinity, b: UserAffinity| ranks_before(a, b);
    assert forall|a: UserAffinity, b: UserAffinity| #[trigger] leq(a, b) && leq(b, a) implies a
        == b by {
        assert(a.user.0 == b.user.0);
        assert(a.user == b.user);
    }
    assert(total_ordering(leq));
}

/// Taking one candidate out takes its entry, if it has one, out of the
/// entries and leaves the others.
proof fn lemma_entries_remove(
    subject: Candidate,
    candidates: Seq<Candidate>,
    min_hours: u32,
    k: int,
)
    requires
        0 <= k < candidates.len(),
    ensures
        entries_of(subject, candidates, min_hours).to_multiset() == match entry_of(
            subject,
            candidates[k],
            min_hours,
        ) {
            Some(entry) => entries_of(
                subject,
                candidates.remove(k),
                min_hours,
            ).to_multiset().insert(entry),
            None => entries_of(subject, candidates.remove(k), min_hours).to_multiset(),
        },
    decreases candidates.len(),
{
    let rest = candidates.drop_last();
    let last = candidates.last();
    if k == candidates.len() - 1 {
        assert(candidates.remove(k) =~= rest);
        if let Some(entry) = entry_of(subject, last, min_hours) {
            to_multiset_build(entries_of(subject, rest, min_hours), entry);
        }
    } else {
        let removed = candidates.remove(k);
        assert(removed.drop_last() =~= rest.remove(k));
        assert(removed.last() == last);
        assert(rest[k] == candidates[k]);
        lemma_entries_remove(subject, rest, min_hours, k);
        if let Some(entry) = entry_of(subject, last, min_hours) {
            to_multiset_build(entries_of(subject, rest, min_hours), entry);
            to_multiset_build(entries_of(subject, rest.remove(k), min_hours), entry);
        }
        assert(entries_of(subject, candidates, min_hours).to_multiset() =~= match entry_of(
            subject,
            candidates[k],
            min_hours,
        ) {
            Some(entry) => entries_of(subject, removed, min_hours).to_multiset().insert(entry),
            None => entries_of(subject, removed, min_hours).to_multiset(),
        });
    }
}

/// The entries of the candidates that take part do not depend, but for their
/// order, on the order of the candidates.
pub proof fn lemma_entries_ignore_order(
    subject: Candidate,
    first: Seq<Candidate>,
    second: Seq<Candidate>,
    min_hours: u32,
)
    requires
        first.to_multiset() == second.to_multiset(),
    ensures
        entries_of(subject, first, min_hours).to_multiset() == entries_of(
            subject,
            second,
            min_hours,
        ).to_multiset(),
    decreases first.len(),
{
    to_multiset_len(first);
    to_multiset_len(second);
    if first.len() == 0 {
        assert(second =~= first);
    } else {
        let rest = first.drop_last();
        let last = first.last();
        assert(first =~= rest.push(last));
        to_multiset_build(rest, last);
        assert(first.to_multiset().count(last) > 0);
        to_multiset_contains(second, last);
        let k = choose|k: int| 0 <= k < second.len() && second[k] == last;
        to_multiset_remove(second, k);
        assert(rest.to_multiset() =~= second.remove(k).to_multiset());
        lemma_entries_ignore_order(subject, rest, second.remove(k), min_hours);
        lemma_entries_remove(subject, second, min_hours, k);
        if let Some(entry) = entry_of(subject, last, min_hours) {
            to_multiset_build(entries_of(subject, rest, min_hours), entry);
        }
    }
}

/// The ranking depends only on which candidates are given and how often,
/// not on their order: two rankings of the same candidates, however the
/// candidates are arranged, are the same sequence.
pub proof fn lemma_ranking_ignores_order(
    subject: Candidate,
    first: Seq<Candidate>,
    second: Seq<Candidate>,
    min_hours: u32,
    first_ranking: Seq<UserAffinity>,
    second_ranking: Seq<UserAffinity>,
)
    requires
        first.to_multiset() == second.to_multiset(),
        is_ranking_of(subject, first, min_hours, first_ranking),
        is_ranking_of(subject, second, min_hours, second_ranking),
    ensures
        first_ranking == second_ranking,
{
    let leq = |a: UserAffinity, b: UserAffinity| ranks_before(a, b);
    lemma_ranks_before_total();
    lemma_entries_ignore_order(subject, first, second, min_hours);
    assert(sorted_by(first_ranking, leq));
    assert(sorted_by(second_ranking, leq));
    lemma_sorted_unique(first_ranking, second_ranking, leq);
}

} // verus!
