//! The set difference between two captures of the follower list, keyed by
//! identity alone.

use crate::follower::distinct;
use crate::follower::follower_views;
use crate::follower::follows;
use crate::follower::identities;
use crate::follower::identity_set;
use crate::follower::is_follower;
use crate::follower::Follower;
use crate::follower::FollowerView;
use crate::text::string_views;
use vstd::prelude::*;
use vstd::string::StringExecFns;

verus! {

/// The followers of `list` whose identity does not occur in `other`, in the
/// order of `list`.
pub open spec fn absent_from(list: Seq<FollowerView>, other: Seq<FollowerView>) -> Seq<
    FollowerView,
> {
    list.filter(|f: FollowerView| !follows(other, f.did))
}

/// The words that announce a new follower, before the handle.
pub const NEW_FOLLOWER: &'static str = "🆕 New follower: @";

/// The words that announce a lost follower, before the handle.
pub const UNFOLLOWER: &'static str = "❌ Unfollower: @";

/// One line per follower, in order: the label, then the handle.
pub open spec fn announcements(label: Seq<char>, list: Seq<FollowerView>) -> Seq<Seq<char>> {
    list.map_values(|f: FollowerView| label + f.handle)
}

fn announce(label: &str, list: &Vec<Follower>, lines: &mut Vec<String>)
    ensures
        string_views(final(lines)@) == string_views(old(lines)@) + announcements(
            label@,
            follower_views(list@),
        ),
{
    let ghost start = string_views(lines@);
    let ghost wanted = announcements(label@, follower_views(list@));
    let mut i: usize = 0;
    while i < list.len()
        invariant
            i <= list.len(),
            wanted == announcements(label@, follower_views(list@)),
            string_views(lines@) =~= start + wanted.take(i as int),
        decreases list.len() - i,
    {
        let ghost before = lines@;
        let line = label.to_owned().concat(list[i].handle.as_str());
        lines.push(line);
        proof {
            assert(string_views(lines@) =~= string_views(before).push(line@));
            assert(wanted.take(i + 1) =~= wanted.take(i as int).push(wanted[i as int]));
        }
        i += 1;
    }
    assert(wanted.take(list.len() as int) =~= wanted);
}

/// What changed between two captures: the followers that are new in the
/// current one, and those of the previous one that are gone.
#[derive(Debug, PartialEq, Eq)]
pub struct FollowerDiff {
    pub added: Vec<Follower>,
    pub removed: Vec<Follower>,
}

impl FollowerDiff {
    /// The new followers, as contracts see them.
    pub open spec fn added_views(self) -> Seq<FollowerView> {
        follower_views(self.added@)
    }

    /// The lost followers, as contracts see them.
    pub open spec fn removed_views(self) -> Seq<FollowerView> {
        follower_views(self.removed@)
    }

    /// Whether this is the difference between `previous` and `current`.
    pub open spec fn is_between(self, previous: Seq<FollowerView>, current: Seq<FollowerView>) -> bool {
        &&& self.added_views() == absent_from(current, previous)
        &&& self.removed_views() == absent_from(previous, current)
    }

    /// The lines that tell the user what changed: one for each new
    /// follower, then one for each lost follower.
    pub open spec fn report(self) -> Seq<Seq<char>> {
        announcements(NEW_FOLLOWER@, self.added_views()) + announcements(
            UNFOLLOWER@,
            self.removed_views(),
        )
    }

    /// The lines that tell the user what changed.
    pub fn report_lines(&self) -> (lines: Vec<String>)
        ensures
            string_views(lines@) == self.report(),
    {
        let mut lines: Vec<String> = Vec::new();
        assert(string_views(lines@) =~= Seq::<Seq<char>>::empty());
        announce(NEW_FOLLOWER, &self.added, &mut lines);
        announce(UNFOLLOWER, &self.removed, &mut lines);
        assert(string_views(lines@) =~= self.report());
        lines
    }

    /// Whether nothing changed.
    pub fn is_empty(&self) -> (empty: bool)
        ensures
            empty == (self.added@.len() == 0 && self.removed@.len() == 0),
    {
        self.added.len() == 0 && self.removed.len() == 0
    }
}

/// The identities kept by `absent_from` are those of `list` that `other`
/// does not have.
pub proof fn lemma_absent_identities(list: Seq<FollowerView>, other: Seq<FollowerView>)
    ensures
        identity_set(absent_from(list, other)) == identity_set(list).difference(
            identity_set(other),
        ),
{
    let keep = |f: FollowerView| !follows(other, f.did);
    let kept = absent_from(list, other);
    let lhs = identity_set(kept);
    let rhs = identity_set(list).difference(identity_set(other));
    assert forall|d: Seq<char>| lhs.contains(d) implies rhs.contains(d) by {
        let j = choose|j: int| 0 <= j < identities(kept).len() && identities(kept)[j] == d;
        list.lemma_filter_pred(keep, j);
        assert(kept.contains(kept[j]));
        list.lemma_filter_contains_rev(keep, kept[j]);
        let i = choose|i: int| 0 <= i < list.len() && list[i] == kept[j];
        assert(identities(list)[i] == d);
    }
    assert forall|d: Seq<char>| rhs.contains(d) implies lhs.contains(d) by {
        let i = choose|i: int| 0 <= i < identities(list).len() && identities(list)[i] == d;
        list.lemma_filter_contains(keep, i);
        let j = choose|j: int| 0 <= j < kept.len() && kept[j] == list[i];
        assert(identities(kept)[j] == d);
    }
    assert(lhs =~= rhs);
}

/// Set-difference correctness: for a previous capture `previous` and a
/// current one `current`, the added identities are those of `current` that
/// `previous` lacks, the removed ones those of `previous` that `current`
/// lacks, and no identity is both added and removed.
pub proof fn lemma_diff_is_set_difference(previous: Seq<FollowerView>, current: Seq<FollowerView>)
    ensures
        identity_set(absent_from(current, previous)) == identity_set(current).difference(
            identity_set(previous),
        ),
        identity_set(absent_from(previous, current)) == identity_set(previous).difference(
            identity_set(current),
        ),
        identity_set(absent_from(current, previous)).disjoint(
            identity_set(absent_from(previous, current)),
        ),
{
    lemma_absent_identities(current, previous);
    lemma_absent_identities(previous, current);
}

/// A capture compared with itself shows no change.
pub proof fn lemma_absent_from_self(list: Seq<FollowerView>)
    ensures
        absent_from(list, list) == Seq::<FollowerView>::empty(),
{
    let keep = |f: FollowerView| !follows(list, f.did);
    assert forall|i: int| 0 <= i < list.len() implies !keep(#[trigger] list[i]) by {
        assert(identities(list)[i] == list[i].did);
    }
    list.lemma_all_neg_filter_empty(keep);
}

/// What `absent_from` keeps of a list without repeated identities has no
/// repeated identities either.
pub proof fn lemma_absent_keeps_distinct(list: Seq<FollowerView>, other: Seq<FollowerView>)
    requires
        distinct(list),
    ensures
        distinct(absent_from(list, other)),
    decreases list.len(),
{
    let keep = |f: FollowerView| !follows(other, f.did);
    reveal(Seq::filter);
    if list.len() > 0 {
        let front = list.drop_last();
        assert forall|a: int, b: int|
            0 <= a < front.len() && 0 <= b < front.len() && a != b implies identities(front)[a]
            != identities(front)[b] by {
            assert(identities(list)[a] != identities(list)[b]);
        }
        lemma_absent_keeps_distinct(front, other);
        let kept_front = absent_from(front, other);
        if keep(list.last()) {
            let kept = kept_front.push(list.last());
            assert(absent_from(list, other) == kept);
            assert forall|a: int, b: int|
                0 <= a < kept.len() && 0 <= b < kept.len() && a != b implies identities(kept)[a]
                != identities(kept)[b] by {
                if a < kept_front.len() && b < kept_front.len() {
                    assert(identities(kept_front)[a] != identities(kept_front)[b]);
                } else {
                    let low = if a < b { a } else { b };
                    assert(kept_front.contains(kept_front[low]));
                    front.lemma_filter_contains_rev(keep, kept_front[low]);
                    let i = choose|i: int| 0 <= i < front.len() && front[i] == kept_front[low];
                    assert(identities(list)[i] != identities(list)[list.len() - 1]);
                }
            }
        }
    }
}

/// Copies the followers of `list` whose identity does not occur in `other`.
fn followers_absent_from(list: &Vec<Follower>, other: &Vec<Follower>) -> (kept: Vec<Follower>)
    ensures
        follower_views(kept@) == absent_from(follower_views(list@), follower_views(other@)),
{
    let ghost keep = |f: FollowerView| !follows(follower_views(other@), f.did);
    let mut kept: Vec<Follower> = Vec::new();
    let mut i: usize = 0;
    proof {
        reveal(Seq::filter);
        assert(follower_views(list@).take(0) =~= Seq::<FollowerView>::empty());
        assert(follower_views(kept@) =~= Seq::<FollowerView>::empty());
    }
    while i < list.len()
        invariant
            i <= list.len(),
            keep == |f: FollowerView| !follows(follower_views(other@), f.did),
            follower_views(kept@) == follower_views(list@).take(i as int).filter(keep),
        decreases list.len() - i,
    {
        let present = is_follower(other, &list[i].did);
        proof {
            let views = follower_views(list@);
            views.lemma_take_succ_push(i as int);
            views.take(i as int).lemma_filter_push(views[i as int], keep);
        }
        if !present {
            let ghost before = kept@;
            kept.push(list[i].clone());
            proof {
                assert(follower_views(kept@) =~= follower_views(before).push(list@[i as int]@));
            }
        }
        i += 1;
    }
    proof {
        follower_views(list@).lemma_take_len();
    }
    kept
}

/// Compares the previous capture with the current one.  A follower counts as
/// the same account whenever the identity is the same, whatever the handle.
pub fn diff_followers(previous: &Vec<Follower>, current: &Vec<Follower>) -> (diff: FollowerDiff)
    ensures
        diff.is_between(follower_views(previous@), follower_views(current@)),
        identity_set(diff.added_views()) == identity_set(follower_views(current@)).difference(
            identity_set(follower_views(previous@)),
        ),
        identity_set(diff.removed_views()) == identity_set(follower_views(previous@)).difference(
            identity_set(follower_views(current@)),
        ),
        identity_set(diff.added_views()).disjoint(identity_set(diff.removed_views())),
        distinct(follower_views(current@)) ==> distinct(diff.added_views()),
        distinct(follower_views(previous@)) ==> distinct(diff.removed_views()),
{
    let added = followers_absent_from(current, previous);
    let removed = followers_absent_from(previous, current);
    proof {
        lemma_diff_is_set_difference(follower_views(previous@), follower_views(current@));
        if distinct(follower_views(current@)) {
            lemma_absent_keeps_distinct(follower_views(current@), follower_views(previous@));
        }
        if distinct(follower_views(previous@)) {
            lemma_absent_keeps_distinct(follower_views(previous@), follower_views(current@));
        }
    }
    FollowerDiff { added, removed }
}

} // verus!
