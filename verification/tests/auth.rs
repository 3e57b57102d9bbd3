use bsky_rusty_tools::api::Reply;
use bsky_rusty_tools::auth::get_session;
use bsky_rusty_tools::auth::login_request;
use bsky_rusty_tools::auth::login_step;
use bsky_rusty_tools::auth::logout;
use bsky_rusty_tools::auth::session_of;
use bsky_rusty_tools::auth::LoginRequest;
use bsky_rusty_tools::auth::LoginResponse;
use bsky_rusty_tools::auth::LoginStep;
use bsky_rusty_tools::auth::Session;
use bsky_rusty_tools::auth::SessionManager;
use bsky_rusty_tools::error::AppError;

fn missing_file() -> AppError {
    AppError::Io("No such file or directory (os error 2)".to_string())
}

fn session(handle: &str) -> Session {
    Session {
        access_jwt: "access".to_string(),
        refresh_jwt: "refresh".to_string(),
        handle: handle.to_string(),
        did: "did:plc:me".to_string(),
        email: String::new(),
    }
}

fn granted() -> LoginResponse {
    LoginResponse {
        access_jwt: "access".to_string(),
        refresh_jwt: "refresh".to_string(),
        handle: "me.bsky.social".to_string(),
        did: "did:plc:me".to_string(),
    }
}

#[test]
fn test_session_manager() {
    let mut manager = SessionManager::new();

    let test_session = Session {
        access_jwt: "test_access".to_string(),
        refresh_jwt: "test_refresh".to_string(),
        handle: "test.bsky.social".to_string(),
        did: "test_did".to_string(),
        email: "test@example.com".to_string(),
    };

    // Test saving and retrieving session
    manager.save_session(&test_session, Ok(())).unwrap();
    let retrieved = manager.get_session(Err(missing_file())).unwrap();
    assert_eq!(retrieved.handle, test_session.handle);
    assert_eq!(retrieved.did, test_session.did);

    // Test clearing session
    manager.clear_session(Ok(true)).unwrap();
    assert!(manager.get_session(Err(missing_file())).is_err());
}

#[test]
fn a_new_manager_holds_no_session() {
    let mut manager = SessionManager::new();
    assert!(!manager.has_session());
    assert_eq!(manager.get_session(Err(missing_file())), Err(missing_file()));
    assert!(!manager.has_session());
}

#[test]
fn a_stored_session_is_read_once_and_then_held() {
    let mut manager = SessionManager::new();
    assert_eq!(manager.get_session(Ok(session("first"))), Ok(session("first")));
    assert!(manager.has_session());
    assert_eq!(manager.get_session(Ok(session("second"))), Ok(session("first")));
    assert_eq!(get_session(&mut manager, Err(missing_file())), Ok(session("first")));
}

#[test]
fn a_session_that_could_not_be_written_is_not_held() {
    let mut manager = SessionManager::new();
    let failure = AppError::Io("disk full".to_string());
    assert_eq!(manager.save_session(&session("me"), Err(failure.clone())), Err(failure));
    assert!(!manager.has_session());
    assert_eq!(manager.save_session(&session("me"), Ok(())), Ok(()));
    assert_eq!(manager.get_session(Err(missing_file())), Ok(session("me")));
    assert_eq!(manager.save_session(&session("other"), Ok(())), Ok(()));
    assert_eq!(manager.get_session(Err(missing_file())), Ok(session("other")));
}

#[test]
fn logout_forgets_the_session_only_with_its_stored_copy() {
    let mut manager = SessionManager::new();
    manager.save_session(&session("me"), Ok(())).unwrap();

    assert_eq!(logout(&mut manager, Ok(false)), Ok(()));
    assert!(manager.has_session());

    let failure = AppError::Io("permission denied".to_string());
    assert_eq!(logout(&mut manager, Err(failure.clone())), Err(failure));
    assert!(manager.has_session());

    assert_eq!(logout(&mut manager, Ok(true)), Ok(()));
    assert!(!manager.has_session());
    assert_eq!(manager.clear_session(Ok(true)), Ok(()));
    assert!(!manager.has_session());
}

#[test]
fn the_login_request_sends_the_password_twice() {
    assert_eq!(
        login_request("me.bsky.social", "hunter2", None),
        LoginRequest {
            identifier: "me.bsky.social".to_string(),
            password: "hunter2".to_string(),
            app_password: Some("hunter2".to_string()),
            verification_code: None,
        }
    );
    assert_eq!(
        login_request("me.bsky.social", "hunter2", Some("12345-ABCDE".to_string())).verification_code,
        Some("12345-ABCDE".to_string())
    );
}

#[test]
fn a_granted_session_has_no_email() {
    assert_eq!(
        session_of(granted()),
        Session {
            access_jwt: "access".to_string(),
            refresh_jwt: "refresh".to_string(),
            handle: "me.bsky.social".to_string(),
            did: "did:plc:me".to_string(),
            email: String::new(),
        }
    );
    assert_eq!(login_step(true, Reply::Accepted(granted())), LoginStep::Done(session_of(granted())));
    assert_eq!(login_step(false, Reply::Accepted(granted())), LoginStep::Done(session_of(granted())));
}

#[test]
fn a_request_for_a_code_leads_to_a_second_attempt_only_once() {
    let text = r#"{"error":"AuthFactorTokenRequired","message":"A sign in code has been sent"}"#;
    assert_eq!(login_step(true, Reply::Rejected(text.to_string())), LoginStep::AskCode);
    assert_eq!(
        login_step(false, Reply::Rejected(text.to_string())),
        LoginStep::Failed(AppError::Auth(text.to_string()))
    );
}

#[test]
fn any_other_refusal_ends_the_login() {
    let text = r#"{"error":"AuthenticationRequired","message":"Invalid identifier or password"}"#;
    assert_eq!(
        login_step(true, Reply::Rejected(text.to_string())),
        LoginStep::Failed(AppError::Auth(text.to_string()))
    );
    assert_eq!(
        login_step(true, Reply::Rejected(String::new())),
        LoginStep::Failed(AppError::Auth(String::new()))
    );
    assert_eq!(
        login_step(true, Reply::Rejected("AuthFactorTokenRequire".to_string())),
        LoginStep::Failed(AppError::Auth("AuthFactorTokenRequire".to_string()))
    );
}
