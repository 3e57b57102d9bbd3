//! The records the tracker keeps: followers and the events of the diff log.

use crate::timestamp::Timestamp;
use vstd::prelude::*;

verus! {

/// One account that follows the user.  `did` is the account's durable
/// identifier and the key of the snapshot; `handle` is the display name at
/// the time of capture; `indexed_at` is when the account was first seen.
#[derive(Debug, PartialEq, Eq)]
pub struct Follower {
    pub did: String,
    pub handle: String,
    pub indexed_at: Timestamp,
}

/// A follower as contracts see it.
pub struct FollowerView {
    pub did: Seq<char>,
    pub handle: Seq<char>,
    pub indexed_at: Timestamp,
}

impl View for Follower {
    type V = FollowerView;

    open spec fn view(&self) -> FollowerView {
        FollowerView { did: self.did@, handle: self.handle@, indexed_at: self.indexed_at }
    }
}

impl Clone for Follower {
    fn clone(&self) -> (copy: Self)
        ensures
            copy == *self,
    {
        Follower {
            did: self.did.clone(),
            handle: self.handle.clone(),
            indexed_at: self.indexed_at,
        }
    }
}

/// What happened to an identity between two consecutive snapshots.
#[derive(Clone, Copy, Debug, PartialEq, Eq, Structural)]
pub enum DiffAction {
    Followed,
    Unfollowed,
}

impl DiffAction {
    /// The text under which the action is stored in the diff log.
    pub open spec fn text(self) -> Seq<char> {
        match self {
            DiffAction::Followed => "follow"@,
            DiffAction::Unfollowed => "unfollow"@,
        }
    }

    pub fn as_str(&self) -> (text: &'static str)
        ensures
            text@ == self.text(),
    {
        match self {
            DiffAction::Followed => "follow",
            DiffAction::Unfollowed => "unfollow",
        }
    }
}

/// One entry of the append-only diff log.
#[derive(Debug, PartialEq, Eq)]
pub struct DiffEvent {
    pub did: String,
    pub handle: String,
    pub action: DiffAction,
    pub timestamp: Timestamp,
}

/// A diff event as contracts see it.
pub struct DiffEventView {
    pub did: Seq<char>,
    pub handle: Seq<char>,
    pub action: DiffAction,
    pub timestamp: Timestamp,
}

impl View for DiffEvent {
    type V = DiffEventView;

    open spec fn view(&self) -> DiffEventView {
        DiffEventView {
            did: self.did@,
            handle: self.handle@,
            action: self.action,
            timestamp: self.timestamp,
        }
    }
}

impl Clone for DiffEvent {
    fn clone(&self) -> (copy: Self)
        ensures
            copy == *self,
    {
        DiffEvent {
            did: self.did.clone(),
            handle: self.handle.clone(),
            action: self.action,
            timestamp: self.timestamp,
        }
    }
}

/// The views of a list of followers, in order.
pub open spec fn follower_views(list: Seq<Follower>) -> Seq<FollowerView> {
    list.map_values(|f: Follower| f@)
}

/// The views of a list of diff events, in order.
pub open spec fn event_views(list: Seq<DiffEvent>) -> Seq<DiffEventView> {
    list.map_values(|e: DiffEvent| e@)
}

/// The identities of a list of followers, in order.
pub open spec fn identities(list: Seq<FollowerView>) -> Seq<Seq<char>> {
    list.map_values(|f: FollowerView| f.did)
}

/// The identities of a list of followers, as a set.
pub open spec fn identity_set(list: Seq<FollowerView>) -> Set<Seq<char>> {
    identities(list).to_set()
}

/// Whether `did` is the identity of some follower in `list`.
pub open spec fn follows(list: Seq<FollowerView>, did: Seq<char>) -> bool {
    identities(list).contains(did)
}

/// Whether no identity occurs twice in `list`: the invariant of a snapshot.
pub open spec fn distinct(list: Seq<FollowerView>) -> bool {
    identities(list).no_duplicates()
}

/// A list of followers has distinct identities exactly when its front has,
/// and the identity of its last follower is not among them.
pub proof fn lemma_distinct_step(records: Seq<FollowerView>)
    requires
        records.len() > 0,
    ensures
        distinct(records) <==> distinct(records.drop_last()) && !follows(
            records.drop_last(),
            records.last().did,
        ),
{
    let front = records.drop_last();
    let ids = identities(records);
    let front_ids = identities(front);
    assert(front_ids =~= ids.drop_last());
    if distinct(records) {
        assert forall|a: int, b: int|
            0 <= a < front_ids.len() && 0 <= b < front_ids.len() && a != b implies front_ids[a]
            != front_ids[b] by {
            assert(ids[a] != ids[b]);
        }
        if follows(front, records.last().did) {
            let i = choose|i: int| 0 <= i < front_ids.len() && front_ids[i] == records.last().did;
            assert(ids[i] == ids[records.len() - 1]);
        }
    }
    if distinct(front) && !follows(front, records.last().did) {
        assert forall|a: int, b: int|
            0 <= a < ids.len() && 0 <= b < ids.len() && a != b implies ids[a] != ids[b] by {
            if a < front_ids.len() && b < front_ids.len() {
                assert(front_ids[a] != front_ids[b]);
            } else if a < front_ids.len() {
                assert(front_ids[a] == ids[a]);
            } else {
                assert(front_ids[b] == ids[b]);
            }
        }
    }
}

/// Whether `did` is the identity of one of `list`'s followers.
pub fn is_follower(list: &Vec<Follower>, did: &String) -> (found: bool)
    ensures
        found == follows(follower_views(list@), did@),
{
    let mut i: usize = 0;
    while i < list.len()
        invariant
            i <= list.len(),
            forall|j: int| 0 <= j < i ==> identities(follower_views(list@))[j] != did@,
        decreases list.len() - i,
    {
        if list[i].did == *did {
            assert(identities(follower_views(list@))[i as int] == did@);
            return true;
        }
        i += 1;
    }
    false
}

/// Whether no identity occurs twice in `list`.
pub fn has_distinct_identities(list: &Vec<Follower>) -> (ok: bool)
    ensures
        ok == distinct(follower_views(list@)),
{
    let ghost ids = identities(follower_views(list@));
    let mut i: usize = 0;
    while i < list.len()
        invariant
            i <= list.len(),
            ids == identities(follower_views(list@)),
            forall|a: int, b: int| 0 <= a < i && 0 <= b < list.len() && a != b ==> ids[a] != ids[b],
        decreases list.len() - i,
    {
        let mut j: usize = i + 1;
        while j < list.len()
            invariant
                i < j <= list.len(),
                ids == identities(follower_views(list@)),
                forall|b: int| i < b < j ==> ids[i as int] != ids[b],
            decreases list.len() - j,
        {
            if list[i].did == list[j].did {
                assert(ids[i as int] == ids[j as int]);
                return false;
            }
            j += 1;
        }
        i += 1;
    }
    true
}

} // verus!
