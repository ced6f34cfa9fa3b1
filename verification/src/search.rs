//! Filtering records by a search term.
//!
//! A record is shown for a term when the case-folded term occurs in the
//! case-folded name, e-mail address or user name of the record. Filtering
//! keeps exactly the records that are shown, in the order in which they came.

use crate::record::{views, User, UserView};
use crate::text::{contains, fold_case, folded, is_substring, lemma_empty_is_substring};
use vstd::prelude::*;

verus! {

/// Whether `needle` occurs in one of three texts.
pub open spec fn occurs_in_one(
    needle: Seq<char>,
    name: Seq<char>,
    email: Seq<char>,
    username: Seq<char>,
) -> bool {
    is_substring(needle, name) || is_substring(needle, email) || is_substring(needle, username)
}

/// Whether a record is found by a needle that has been case-folded already.
pub open spec fn matches_needle(user: UserView, needle: Seq<char>) -> bool {
    occurs_in_one(needle, folded(user.name), folded(user.email), folded(user.username))
}

/// Whether a record is found by a search term.
pub open spec fn matches_term(user: UserView, term: Seq<char>) -> bool {
    matches_needle(user, folded(term))
}

/// The predicate by which a term filters records.
pub open spec fn found_by(term: Seq<char>) -> spec_fn(UserView) -> bool {
    |user: UserView| matches_term(user, term)
}

/// The records that a term leaves visible: those that it finds, in order.
pub open spec fn visible(records: Seq<UserView>, term: Seq<char>) -> Seq<UserView> {
    records.filter(found_by(term))
}

/// Whether `picks` lists positions of `from` in rising order and `out` holds
/// what stands at them.
pub open spec fn selects<A>(picks: Seq<int>, from: Seq<A>, out: Seq<A>) -> bool {
    &&& picks.len() == out.len()
    &&& forall|k: int| 0 <= k < picks.len() ==> 0 <= #[trigger] picks[k] < from.len()
    &&& forall|j: int, k: int| 0 <= j < k < picks.len() ==> picks[j] < picks[k]
    &&& forall|k: int| 0 <= k < picks.len() ==> #[trigger] out[k] == from[picks[k]]
}

/// Whether `out` is `from` with some elements left out and the others in
/// their old order.
pub open spec fn is_subsequence<A>(out: Seq<A>, from: Seq<A>) -> bool {
    exists|picks: Seq<int>| selects(picks, from, out)
}

/// The views of borrowed records, in the same order.
pub open spec fn borrowed_views(records: Seq<&User>) -> Seq<UserView> {
    records.map_values(|user: &User| user@)
}

/// Tells whether `needle` occurs in `name`, `email` or `username`.
///
/// The texts are compared as they are given: a caller that wants a search
/// without regard to case folds all four first.
pub fn occurs_in_any(needle: &str, name: &str, email: &str, username: &str) -> (found: bool)
    ensures
        found == occurs_in_one(needle@, name@, email@, username@),
{
    contains(name, needle) || contains(email, needle) || contains(username, needle)
}

/// Tells whether `user` is found by `needle`, a search term whose case has
/// been folded already.
pub fn record_matches(user: &User, needle: &str) -> (hit: bool)
    ensures
        hit == matches_needle(user@, needle@),
{
    let name = fold_case(user.name.as_str());
    let email = fold_case(user.email.as_str());
    let username = fold_case(user.username.as_str());
    occurs_in_any(needle, name.as_str(), email.as_str(), username.as_str())
}

/// Filtering keeps the positions of the records that the term finds, and
/// no others: the result holds, in rising order of position, exactly the
/// records at the positions where the term matches.
pub proof fn lemma_visible_picks(records: Seq<UserView>, term: Seq<char>) -> (picks: Seq<int>)
    ensures
        selects(picks, records, visible(records, term)),
        forall|i: int|
            0 <= i < records.len() ==> (picks.contains(i) <==> matches_term(
                #[trigger] records[i],
                term,
            )),
    decreases records.len(),
{
    reveal(Seq::filter);
    if records.len() == 0 {
        Seq::<int>::empty()
    } else {
        let front = records.drop_last();
        let last = records.len() - 1;
        let front_picks = lemma_visible_picks(front, term);
        if matches_term(records[last], term) {
            let picks = front_picks.push(last);
            assert(picks[picks.len() - 1] == last);
            assert forall|i: int| 0 <= i < records.len() implies (picks.contains(i)
                <==> matches_term(#[trigger] records[i], term)) by {
                if i < last {
                    assert(front[i] == records[i]);
                    if front_picks.contains(i) {
                        let k = choose|k: int| 0 <= k < front_picks.len() && front_picks[k] == i;
                        assert(picks[k] == i);
                    }
                    if picks.contains(i) {
                        let k = choose|k: int| 0 <= k < picks.len() && picks[k] == i;
                        assert(front_picks[k] == i);
                    }
                }
            }
            picks
        } else {
            assert forall|i: int| 0 <= i < records.len() implies (front_picks.contains(i)
                <==> matches_term(#[trigger] records[i], term)) by {
                if i < last {
                    assert(front[i] == records[i]);
                } else if front_picks.contains(i) {
                    let k = choose|k: int| 0 <= k < front_picks.len() && front_picks[k] == i;
                    assert(front_picks[k] < front.len());
                }
            }
            front_picks
        }
    }
}

/// A record is visible exactly when it is one of the records and the term
/// finds it.
pub proof fn lemma_visible_iff_found(records: Seq<UserView>, term: Seq<char>, user: UserView)
    ensures
        visible(records, term).contains(user) <==> records.contains(user) && matches_term(
            user,
            term,
        ),
{
    let out = visible(records, term);
    let picks = lemma_visible_picks(records, term);
    if out.contains(user) {
        let k = choose|k: int| 0 <= k < out.len() && out[k] == user;
        assert(picks.contains(picks[k]));
        assert(records[picks[k]] == user);
    }
    if records.contains(user) && matches_term(user, term) {
        let i = choose|i: int| 0 <= i < records.len() && records[i] == user;
        assert(picks.contains(i));
        let k = choose|k: int| 0 <= k < picks.len() && picks[k] == i;
        assert(out[k] == user);
    }
}

/// The empty term finds every record.
pub proof fn lemma_empty_term_finds_all(user: UserView)
    ensures
        matches_term(user, Seq::<char>::empty()),
{
    lemma_empty_is_substring(folded(user.name));
}

/// With the empty term every record stays visible, in the order in which the
/// records came.
pub proof fn lemma_empty_term_shows_all(records: Seq<UserView>)
    ensures
        visible(records, Seq::<char>::empty()) == records,
    decreases records.len(),
{
    reveal(Seq::filter);
    if records.len() > 0 {
        lemma_empty_term_shows_all(records.drop_last());
        lemma_empty_term_finds_all(records.last());
    }
}

/// Filtering never reorders: what is visible is a subsequence of the records.
pub proof fn lemma_visible_is_subsequence(records: Seq<UserView>, term: Seq<char>)
    ensures
        is_subsequence(visible(records, term), records),
{
    let picks = lemma_visible_picks(records, term);
}

/// Returns the records that `term` finds, in the order of `records`.
///
/// The case of the term and of the searched fields is folded before they are
/// compared. The records themselves are borrowed, not changed.
pub fn filter_records<'a>(records: &'a Vec<User>, term: &str) -> (out: Vec<&'a User>)
    ensures
        borrowed_views(out@) == visible(views(records@), term@),
        forall|user: UserView| #[trigger]
            borrowed_views(out@).contains(user) <==> views(records@).contains(user)
                && matches_term(user, term@),
        term@.len() == 0 ==> borrowed_views(out@) == views(records@),
        is_subsequence(borrowed_views(out@), views(records@)),
{
    let needle = fold_case(term);
    let mut out: Vec<&'a User> = Vec::new();
    let mut i: usize = 0;
    assert(visible(Seq::<UserView>::empty(), term@) =~= Seq::<UserView>::empty()) by {
        reveal(Seq::filter);
    }
    while i < records.len()
        invariant
            i <= records.len(),
            needle@ == folded(term@),
            borrowed_views(out@) == visible(views(records@.take(i as int)), term@),
        decreases records.len() - i,
    {
        let user = &records[i];
        let ghost shown = borrowed_views(out@);
        let ghost seen = views(records@.take(i as int));
        proof {
            assert(views(records@.take(i + 1)) =~= seen.push(user@));
            seen.lemma_filter_push(user@, found_by(term@));
        }
        if record_matches(user, needle.as_str()) {
            out.push(user);
        }
        i += 1;
    }
    proof {
        assert(records@.take(i as int) =~= records@);
        let all = views(records@);
        assert forall|user: UserView| #[trigger]
            borrowed_views(out@).contains(user) <==> all.contains(user) && matches_term(
                user,
                term@,
            ) by {
            lemma_visible_iff_found(all, term@, user);
        }
        if term@.len() == 0 {
            assert(term@ =~= Seq::<char>::empty());
            lemma_empty_term_shows_all(all);
        }
        lemma_visible_is_subsequence(all, term@);
    }
    out
}

} // verus!
