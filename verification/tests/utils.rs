use bsky_rusty_tools::api::accept_followers;
use bsky_rusty_tools::api::bearer;
use bsky_rusty_tools::api::endpoint;
use bsky_rusty_tools::api::follow_request;
use bsky_rusty_tools::api::follow_request_at;
use bsky_rusty_tools::api::profile_lines;
use bsky_rusty_tools::api::FetchedFollower;
use bsky_rusty_tools::api::reply_outcome;
use bsky_rusty_tools::api::FollowRequest;
use bsky_rusty_tools::api::Profile;
use bsky_rusty_tools::api::Reply;
use bsky_rusty_tools::api::BLUESKY_API_URL;
use bsky_rusty_tools::api::INCOMPLETE_FOLLOWER;
use bsky_rusty_tools::error::AppError;
use bsky_rusty_tools::error::ErrorClass;
use bsky_rusty_tools::follower::Follower;
use bsky_rusty_tools::text::chars_of;
use bsky_rusty_tools::text::contains;
use bsky_rusty_tools::text::decimal;
use bsky_rusty_tools::text::signed;
use bsky_rusty_tools::timestamp::Timestamp;
use bsky_rusty_tools::utils::handle_api_error;
use bsky_rusty_tools::utils::ErrorResponse;

#[test]
fn a_decoded_failure_shows_its_message() {
    let decoded = ErrorResponse {
        error: "InvalidRequest".to_string(),
        message: "actor must be a valid did or a handle".to_string(),
    };
    let body = r#"{"error":"InvalidRequest","message":"actor must be a valid did or a handle"}"#;
    assert_eq!(
        handle_api_error(400, body, Some(decoded)),
        AppError::Anyhow("API Error (400): actor must be a valid did or a handle".to_string())
    );
}

#[test]
fn an_undecoded_failure_shows_its_body() {
    assert_eq!(
        handle_api_error(502, "<html>Bad Gateway</html>", None),
        AppError::Anyhow("API Error (502): <html>Bad Gateway</html>".to_string())
    );
    assert_eq!(handle_api_error(0, "", None), AppError::Anyhow("API Error (0): ".to_string()));
    assert_eq!(
        handle_api_error(65535, "x", None).message(),
        "Anyhow error: API Error (65535): x"
    );
}

#[test]
fn numbers_are_written_in_decimal() {
    assert_eq!(decimal(0), "0");
    assert_eq!(decimal(7), "7");
    assert_eq!(decimal(10), "10");
    assert_eq!(decimal(404), "404");
    assert_eq!(decimal(1_234_567_890), "1234567890");
    assert_eq!(decimal(u64::MAX), "18446744073709551615");
    for n in [1u64, 9, 11, 99, 100, 101, 65_535, 1_000_000] {
        assert_eq!(decimal(n), n.to_string());
    }
}

#[test]
fn substrings_are_found_wherever_they_stand() {
    assert!(contains("AuthFactorTokenRequired", "AuthFactorTokenRequired"));
    assert!(contains("xxAuthFactorTokenRequired", "AuthFactorTokenRequired"));
    assert!(contains("AuthFactorTokenRequiredxx", "AuthFactorTokenRequired"));
    assert!(contains("aab", "ab"));
    assert!(contains("anything", ""));
    assert!(contains("", ""));
    assert!(!contains("", "a"));
    assert!(!contains("ab", "abc"));
    assert!(!contains("abcabd", "abe"));
    assert!(contains("na\u{ef}ve caf\u{e9}", "caf\u{e9}"));
    assert!(!contains("cafe", "caf\u{e9}"));
    assert_eq!(chars_of("h\u{e9}!"), vec!['h', '\u{e9}', '!']);
}

#[test]
fn every_error_says_what_kind_it_is() {
    let d = || "detail".to_string();
    assert_eq!(AppError::Auth(d()).message(), "Authentication error: detail");
    assert_eq!(AppError::Database(d()).message(), "Database error: detail");
    assert_eq!(AppError::Io(d()).message(), "IO error: detail");
    assert_eq!(AppError::Api(d()).message(), "API error: detail");
    assert_eq!(AppError::Config(d()).message(), "Configuration error: detail");
    assert_eq!(AppError::Serialization(d()).message(), "Serialization error: detail");
    assert_eq!(AppError::Request(d()).message(), "HTTP request error: detail");
    assert_eq!(AppError::InvalidInput(d()).message(), "Invalid input: detail");
    assert_eq!(AppError::Session(d()).message(), "Session error: detail");
    assert_eq!(AppError::Anyhow(d()).message(), "Anyhow error: detail");
    assert_eq!(AppError::Api(String::new()).message(), "API error: ");
    assert_eq!(AppError::Auth(d()).clone(), AppError::Auth(d()));
}

#[test]
fn errors_are_sorted_by_where_they_arose() {
    let d = || "detail".to_string();
    assert_eq!(AppError::Api(d()).class(), ErrorClass::Transport);
    assert_eq!(AppError::Request(d()).class(), ErrorClass::Transport);
    assert_eq!(AppError::Database(d()).class(), ErrorClass::Storage);
    assert_eq!(AppError::Io(d()).class(), ErrorClass::Storage);
    assert_eq!(AppError::Auth(d()).class(), ErrorClass::Other);
    assert_eq!(AppError::Config(d()).class(), ErrorClass::Other);
    assert_eq!(AppError::Serialization(d()).class(), ErrorClass::Other);
    assert_eq!(AppError::InvalidInput(d()).class(), ErrorClass::Other);
    assert_eq!(AppError::Session(d()).class(), ErrorClass::Other);
    assert_eq!(AppError::Anyhow(d()).class(), ErrorClass::Other);
}

#[test]
fn methods_live_under_the_root_of_the_service() {
    assert_eq!(BLUESKY_API_URL, "https://bsky.social/xrpc");
    assert_eq!(
        endpoint("app.bsky.graph.getFollowers"),
        "https://bsky.social/xrpc/app.bsky.graph.getFollowers"
    );
    assert_eq!(endpoint(""), "https://bsky.social/xrpc/");
    assert_eq!(bearer("abc.def"), "Bearer abc.def");
}

#[test]
fn a_refusal_becomes_an_api_error() {
    assert_eq!(reply_outcome(Reply::Accepted(7u8)), Ok(7u8));
    assert_eq!(
        reply_outcome::<u8>(Reply::Rejected("Forbidden".to_string())),
        Err(AppError::Api("Forbidden".to_string()))
    );
}

#[test]
fn a_follow_request_names_the_account_and_the_instant() {
    let at = Timestamp::new(1_431_648_000, 0).unwrap();
    assert_eq!(
        follow_request_at("did:plc:them", &at),
        FollowRequest {
            subject: "did:plc:them".to_string(),
            created_at: "2015-05-15T00:00:00+00:00".to_string(),
        }
    );
    let now = follow_request("did:plc:them");
    assert_eq!(now.subject, "did:plc:them");
    assert!(chrono::DateTime::parse_from_rfc3339(&now.created_at).is_ok());
}

#[test]
fn a_complete_follower_list_is_accepted_in_order() {
    let at = Timestamp::new(1_431_648_000, 0).unwrap();
    let entry = |did: &str, handle: &str| FetchedFollower {
        did: Some(did.to_string()),
        handle: Some(handle.to_string()),
        indexed_at: Some(at),
    };
    let follower = |did: &str, handle: &str| Follower {
        did: did.to_string(),
        handle: handle.to_string(),
        indexed_at: at,
    };
    assert_eq!(
        accept_followers(&vec![entry("B", "bob"), entry("A", "alice"), entry("B", "bob")]),
        Ok(vec![follower("B", "bob"), follower("A", "alice"), follower("B", "bob")])
    );
    assert_eq!(accept_followers(&Vec::new()), Ok(Vec::new()));
}

#[test]
fn a_follower_list_with_an_incomplete_entry_is_refused() {
    let at = Timestamp::new(1_431_648_000, 0).unwrap();
    let whole = || FetchedFollower {
        did: Some("A".to_string()),
        handle: Some("alice".to_string()),
        indexed_at: Some(at),
    };
    let refused =
        Err(AppError::Api("follower record without identity, handle or time of first sighting".to_string()));
    assert_eq!(INCOMPLETE_FOLLOWER, "follower record without identity, handle or time of first sighting");
    let no_identity = FetchedFollower { did: None, ..whole() };
    let no_handle = FetchedFollower { handle: None, ..whole() };
    let no_instant = FetchedFollower { indexed_at: None, ..whole() };
    assert_eq!(accept_followers(&vec![whole(), no_identity]), refused);
    assert_eq!(accept_followers(&vec![no_handle, whole()]), refused);
    assert_eq!(accept_followers(&vec![whole(), no_instant, whole()]), refused);
    assert_eq!(
        accept_followers(&vec![FetchedFollower { did: None, handle: None, indexed_at: None }])
            .unwrap_err()
            .class(),
        ErrorClass::Transport
    );
}

#[test]
fn a_profile_is_shown_line_by_line() {
    let full = Profile {
        handle: "alice.bsky.social".to_string(),
        did: "did:plc:alice".to_string(),
        display_name: Some("Alice".to_string()),
        description: Some("Gardener".to_string()),
        followers_count: 1234,
        follows_count: 56,
    };
    assert_eq!(
        profile_lines(&full),
        vec![
            "Profile for @alice.bsky.social".to_string(),
            "DID: did:plc:alice".to_string(),
            "Display Name: Alice".to_string(),
            "Description: Gardener".to_string(),
            "Followers: 1234".to_string(),
            "Following: 56".to_string(),
        ]
    );
    let bare = Profile { display_name: None, description: None, followers_count: 0, follows_count: -1, ..full };
    assert_eq!(
        profile_lines(&bare),
        vec![
            "Profile for @alice.bsky.social".to_string(),
            "DID: did:plc:alice".to_string(),
            "Followers: 0".to_string(),
            "Following: -1".to_string(),
        ]
    );
    let named = Profile { display_name: Some(String::new()), ..bare };
    assert_eq!(profile_lines(&named)[2], "Display Name: ");
    assert_eq!(profile_lines(&named).len(), 5);
}

#[test]
fn signed_numbers_carry_their_sign() {
    assert_eq!(signed(0), "0");
    assert_eq!(signed(42), "42");
    assert_eq!(signed(-42), "-42");
    assert_eq!(signed(i32::MAX), "2147483647");
    assert_eq!(signed(i32::MIN), "-2147483648");
}
