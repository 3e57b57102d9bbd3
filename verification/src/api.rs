//! The rules for talking to the remote service: where its methods live, how
//! a request is authorised, and what a refusal means.

use crate::error::AppError;
use crate::error::AppErrorView;
use crate::follower::follower_views;
use crate::follower::Follower;
use crate::follower::FollowerView;
use crate::text::signed;
use crate::text::signed_text;
use crate::text::string_views;
use crate::timestamp::Timestamp;
use vstd::prelude::*;
use vstd::string::StringExecFns;

verus! {

/// The root under which the remote service offers its methods.
pub const BLUESKY_API_URL: &'static str = "https://bsky.social/xrpc";

/// What the remote service answered to a request: the decoded body of an
/// answer that reports success, or the text of one that does not.
#[derive(Debug, PartialEq, Eq)]
pub enum Reply<T> {
    Accepted(T),
    Rejected(String),
}

/// The address of a method of the remote service.
pub open spec fn endpoint_text(method: Seq<char>) -> Seq<char> {
    BLUESKY_API_URL@ + "/"@ + method
}

/// The address of a method of the remote service, such as
/// `app.bsky.graph.getFollowers`.
pub fn endpoint(method: &str) -> (url: String)
    ensures
        url@ == endpoint_text(method@),
{
    BLUESKY_API_URL.to_owned().concat("/").concat(method)
}

/// The value of the `Authorization` header for an access token.
pub fn bearer(token: &str) -> (header: String)
    ensures
        header@ == "Bearer "@ + token@,
{
    "Bearer ".to_owned().concat(token)
}

/// What a call of the remote service comes to: the decoded body, or an
/// `Api` error that carries the text of the refusal.
pub fn reply_outcome<T>(reply: Reply<T>) -> (outcome: Result<T, AppError>)
    ensures
        reply matches Reply::Accepted(body) ==> outcome == Ok::<T, AppError>(body),
        reply matches Reply::Rejected(text) ==> (outcome matches Err(e) && e@ == AppErrorView::Api(
            text@,
        )),
{
    match reply {
        Reply::Accepted(body) => Ok(body),
        Reply::Rejected(text) => Err(AppError::Api(text)),
    }
}

/// The public face of an account.
#[derive(Debug, PartialEq, Eq)]
pub struct Profile {
    pub handle: String,
    pub did: String,
    pub display_name: Option<String>,
    pub description: Option<String>,
    pub followers_count: i32,
    pub follows_count: i32,
}

/// The line that shows a text of a profile, if the profile has it.
pub open spec fn optional_line(label: Seq<char>, text: Option<String>) -> Seq<Seq<char>> {
    match text {
        Some(t) => seq![label + t@],
        None => Seq::empty(),
    }
}

impl Profile {
    /// The lines that show the profile: handle and identity, then the
    /// display name and the description where the account has them, then
    /// the two counts.
    pub open spec fn lines(self) -> Seq<Seq<char>> {
        seq!["Profile for @"@ + self.handle@, "DID: "@ + self.did@] + optional_line(
            "Display Name: "@,
            self.display_name,
        ) + optional_line("Description: "@, self.description) + seq![
            "Followers: "@ + signed_text(self.followers_count as int),
            "Following: "@ + signed_text(self.follows_count as int),
        ]
    }
}

/// The lines that show a profile to the user.
pub fn profile_lines(profile: &Profile) -> (lines: Vec<String>)
    ensures
        string_views(lines@) == profile.lines(),
{
    let mut lines: Vec<String> = Vec::new();
    lines.push("Profile for @".to_owned().concat(profile.handle.as_str()));
    lines.push("DID: ".to_owned().concat(profile.did.as_str()));
    match &profile.display_name {
        Some(name) => {
            lines.push("Display Name: ".to_owned().concat(name.as_str()));
        },
        None => {},
    }
    match &profile.description {
        Some(description) => {
            lines.push("Description: ".to_owned().concat(description.as_str()));
        },
        None => {},
    }
    lines.push("Followers: ".to_owned().concat(signed(profile.followers_count).as_str()));
    lines.push("Following: ".to_owned().concat(signed(profile.follows_count).as_str()));
    assert(string_views(lines@) =~= profile.lines());
    lines
}

/// One entry of the follower list as the remote service sent it.  The service
/// owes all three fields, but any of them may be missing.
#[derive(Debug, PartialEq, Eq)]
pub struct FetchedFollower {
    pub did: Option<String>,
    pub handle: Option<String>,
    pub indexed_at: Option<Timestamp>,
}

/// The detail of the error for a follower list with an incomplete entry.
pub const INCOMPLETE_FOLLOWER: &'static str =
    "follower record without identity, handle or time of first sighting";

impl FetchedFollower {
    /// Whether no field is missing.
    pub open spec fn is_complete(self) -> bool {
        self.did is Some && self.handle is Some && self.indexed_at is Some
    }

    /// The follower that a complete entry describes.
    pub open spec fn follower(self) -> FollowerView {
        FollowerView {
            did: self.did->0@,
            handle: self.handle->0@,
            indexed_at: self.indexed_at->0,
        }
    }
}

/// Whether every entry of the list is complete.
pub open spec fn all_complete(fetched: Seq<FetchedFollower>) -> bool {
    forall|i: int| 0 <= i < fetched.len() ==> (#[trigger] fetched[i]).is_complete()
}

/// Checks a follower list that the remote service sent.  A list in which
/// every entry has its identity, its handle and its time of first sighting
/// is accepted as it is, in order.  A list with an incomplete entry is
/// refused as a whole, with an `Api` error.
pub fn accept_followers(fetched: &Vec<FetchedFollower>) -> (accepted: Result<
    Vec<Follower>,
    AppError,
>)
    ensures
        all_complete(fetched@) ==> (accepted matches Ok(list) && follower_views(list@)
            == fetched@.map_values(|entry: FetchedFollower| entry.follower())),
        !all_complete(fetched@) ==> (accepted matches Err(e) && e@ == AppErrorView::Api(
            INCOMPLETE_FOLLOWER@,
        )),
{
    let mut list: Vec<Follower> = Vec::new();
    let mut i: usize = 0;
    while i < fetched.len()
        invariant
            i <= fetched.len(),
            all_complete(fetched@.take(i as int)),
            follower_views(list@) =~= fetched@.take(i as int).map_values(
                |entry: FetchedFollower| entry.follower(),
            ),
        decreases fetched.len() - i,
    {
        let entry = &fetched[i];
        let ghost before = list@;
        match (&entry.did, &entry.handle, &entry.indexed_at) {
            (Some(did), Some(handle), Some(indexed_at)) => {
                list.push(
                    Follower {
                        did: did.clone(),
                        handle: handle.clone(),
                        indexed_at: *indexed_at,
                    },
                );
            },
            _ => {
                assert(!fetched@[i as int].is_complete());
                return Err(AppError::Api(INCOMPLETE_FOLLOWER.to_owned()));
            },
        }
        proof {
            assert(fetched@.take(i + 1) =~= fetched@.take(i as int).push(fetched@[i as int]));
            assert(follower_views(list@) =~= follower_views(before).push(
                fetched@[i as int].follower(),
            ));
        }
        i += 1;
    }
    assert(fetched@.take(fetched.len() as int) =~= fetched@);
    Ok(list)
}

/// The body of a request to follow or to unfollow an account: the identity
/// of the account, and the instant of the request as RFC 3339 text.
#[derive(Debug, PartialEq, Eq)]
pub struct FollowRequest {
    pub subject: String,
    pub created_at: String,
}

/// The body of a request, made at the instant `at`, to follow or to unfollow
/// the account `did`.
pub fn follow_request_at(did: &str, at: &Timestamp) -> (request: FollowRequest)
    ensures
        request.subject@ == did@,
        request.created_at@ == at.rfc3339(),
{
    FollowRequest { subject: did.to_owned(), created_at: at.to_rfc3339() }
}

/// The body of a request, made now, to follow or to unfollow the account
/// `did`.
pub fn follow_request(did: &str) -> (request: FollowRequest)
    ensures
        request.subject@ == did@,
        exists|at: Timestamp| request.created_at@ == at.rfc3339(),
{
    let at = Timestamp::now();
    follow_request_at(did, &at)
}

} // verus!
