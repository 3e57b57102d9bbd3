//! The session of the signed-in user: how it is kept in memory, and the
//! rules of the exchange that obtains it.

use crate::api::Reply;
use crate::error::AppError;
use crate::error::AppErrorView;
use crate::text::contains;
use crate::text::occurs_in;
use vstd::prelude::*;

verus! {

/// A session with the remote service: the two tokens and the account they
/// belong to.
#[derive(Debug, PartialEq, Eq)]
pub struct Session {
    pub access_jwt: String,
    pub refresh_jwt: String,
    pub handle: String,
    pub did: String,
    pub email: String,
}

/// A session as contracts see it.
pub struct SessionView {
    pub access_jwt: Seq<char>,
    pub refresh_jwt: Seq<char>,
    pub handle: Seq<char>,
    pub did: Seq<char>,
    pub email: Seq<char>,
}

impl View for Session {
    type V = SessionView;

    open spec fn view(&self) -> SessionView {
        SessionView {
            access_jwt: self.access_jwt@,
            refresh_jwt: self.refresh_jwt@,
            handle: self.handle@,
            did: self.did@,
            email: self.email@,
        }
    }
}

impl Clone for Session {
    fn clone(&self) -> (copy: Self)
        ensures
            copy == *self,
    {
        Session {
            access_jwt: self.access_jwt.clone(),
            refresh_jwt: self.refresh_jwt.clone(),
            handle: self.handle.clone(),
            did: self.did.clone(),
            email: self.email.clone(),
        }
    }
}

/// Keeps the session of the signed-in user in memory, so that the stored
/// copy is read at most once.
#[derive(Debug)]
pub struct SessionManager {
    session: Option<Session>,
}

impl View for SessionManager {
    type V = Option<SessionView>;

    closed spec fn view(&self) -> Option<SessionView> {
        match self.session {
            Some(session) => Some(session@),
            None => None,
        }
    }
}

impl SessionManager {
    /// A manager that holds no session yet.
    pub fn new() -> (manager: Self)
        ensures
            manager@ is None,
    {
        SessionManager { session: None }
    }

    /// Whether a session is held in memory.  While one is, `get_session`
    /// does not look at the stored copy.
    pub fn has_session(&self) -> (held: bool)
        ensures
            held == (self@ is Some),
    {
        self.session.is_some()
    }

    /// The session of the signed-in user.  `stored` is the outcome of
    /// reading the stored copy.  A session held in memory is returned
    /// whatever `stored` is; otherwise a stored session is returned and
    /// held from now on, and a failure to read it is passed on.
    pub fn get_session(&mut self, stored: Result<Session, AppError>) -> (found: Result<
        Session,
        AppError,
    >)
        ensures
            old(self)@ is Some ==> final(self)@ == old(self)@ && (found matches Ok(s) && Some(s@)
                == old(self)@),
            old(self)@ is None ==> found == stored && final(self)@ == (match stored {
                Ok(s) => Some(s@),
                Err(_) => None,
            }),
    {
        match &self.session {
            Some(session) => Ok(session.clone()),
            None => match stored {
                Ok(session) => {
                    self.session = Some(session.clone());
                    Ok(session)
                },
                Err(failure) => Err(failure),
            },
        }
    }

    /// Holds `session` from now on.  `written` is the outcome of writing the
    /// stored copy, which comes first: if that failed, the failure is passed
    /// on and the manager stays as it was.
    pub fn save_session(&mut self, session: &Session, written: Result<(), AppError>) -> (done:
        Result<(), AppError>)
        ensures
            written is Ok ==> done is Ok && final(self)@ == Some(session@),
            written matches Err(failure) ==> done == Err::<(), AppError>(failure) && final(self)@
                == old(self)@,
    {
        match written {
            Ok(()) => {
                self.session = Some(session.clone());
                Ok(())
            },
            Err(failure) => Err(failure),
        }
    }

    /// Forgets the session.  `removed` is the outcome of removing the stored
    /// copy: `Ok(true)` if there was one and it is gone, `Ok(false)` if
    /// there was none.  Only when a stored copy was removed is the session
    /// in memory dropped; a failure is passed on.
    pub fn clear_session(&mut self, removed: Result<bool, AppError>) -> (done: Result<(), AppError>)
        ensures
            removed matches Ok(gone) ==> done is Ok && final(self)@ == (if gone {
                None
            } else {
                old(self)@
            }),
            removed matches Err(failure) ==> done == Err::<(), AppError>(failure) && final(self)@
                == old(self)@,
    {
        match removed {
            Ok(gone) => {
                if gone {
                    self.session = None;
                }
                Ok(())
            },
            Err(failure) => Err(failure),
        }
    }
}

/// Ends the session: see `SessionManager::clear_session`.
pub fn logout(manager: &mut SessionManager, removed: Result<bool, AppError>) -> (done: Result<
    (),
    AppError,
>)
    ensures
        removed matches Ok(gone) ==> done is Ok && final(manager)@ == (if gone {
            None
        } else {
            old(manager)@
        }),
        removed matches Err(failure) ==> done == Err::<(), AppError>(failure) && final(manager)@
            == old(manager)@,
{
    manager.clear_session(removed)
}

/// The session of the signed-in user: see `SessionManager::get_session`.
pub fn get_session(manager: &mut SessionManager, stored: Result<Session, AppError>) -> (found:
    Result<Session, AppError>)
    ensures
        old(manager)@ is Some ==> final(manager)@ == old(manager)@ && (found matches Ok(s) && Some(
            s@,
        ) == old(manager)@),
        old(manager)@ is None ==> found == stored && final(manager)@ == (match stored {
            Ok(s) => Some(s@),
            Err(_) => None,
        }),
{
    manager.get_session(stored)
}

/// The body of a request for a session.
#[derive(Debug, PartialEq, Eq)]
pub struct LoginRequest {
    pub identifier: String,
    pub password: String,
    pub app_password: Option<String>,
    pub verification_code: Option<String>,
}

/// The body of the answer that grants a session.
#[derive(Debug, PartialEq, Eq)]
pub struct LoginResponse {
    pub access_jwt: String,
    pub refresh_jwt: String,
    pub handle: String,
    pub did: String,
}

/// What to do after the remote service has answered a request for a session.
#[derive(Debug, PartialEq, Eq)]
pub enum LoginStep {
    /// Ask the user for the code that was sent by e-mail, and send the
    /// request again with it.
    AskCode,
    /// The session was granted: store it.
    Done(Session),
    /// The request was refused for good.
    Failed(AppError),
}

/// The view of an optional text.
pub open spec fn optional_text(text: Option<String>) -> Option<Seq<char>> {
    match text {
        Some(t) => Some(t@),
        None => None,
    }
}

/// The marker by which the remote service asks for an e-mailed code.
pub const CODE_REQUIRED: &'static str = "AuthFactorTokenRequired";

/// The request for a session of the account `handle`.  The password is sent
/// both as the password and as the app password; the code is sent only in
/// the second request, once the remote service has asked for it.
pub fn login_request(handle: &str, password: &str, verification_code: Option<String>) -> (request:
    LoginRequest)
    ensures
        request.identifier@ == handle@,
        request.password@ == password@,
        optional_text(request.app_password) == Some(password@),
        optional_text(request.verification_code) == optional_text(verification_code),
{
    LoginRequest {
        identifier: handle.to_owned(),
        password: password.to_owned(),
        app_password: Some(password.to_owned()),
        verification_code,
    }
}

/// The session that an answer grants.  The answer names no e-mail address,
/// so the session has none.
pub fn session_of(response: LoginResponse) -> (session: Session)
    ensures
        session@ == (SessionView {
            access_jwt: response.access_jwt@,
            refresh_jwt: response.refresh_jwt@,
            handle: response.handle@,
            did: response.did@,
            email: Seq::empty(),
        }),
{
    Session {
        access_jwt: response.access_jwt,
        refresh_jwt: response.refresh_jwt,
        handle: response.handle,
        did: response.did,
        email: String::new(),
    }
}

/// Decides how the exchange goes on after an answer.  An answer that grants
/// the session ends it.  A refusal of the first request that asks for an
/// e-mailed code leads to a second request; any other refusal, and every
/// refusal of the second request, is an `Auth` error with the text of the
/// refusal.
pub fn login_step(first_attempt: bool, reply: Reply<LoginResponse>) -> (step: LoginStep)
    ensures
        reply matches Reply::Accepted(response) ==> (step matches LoginStep::Done(session)
            && session@ == (SessionView {
            access_jwt: response.access_jwt@,
            refresh_jwt: response.refresh_jwt@,
            handle: response.handle@,
            did: response.did@,
            email: Seq::empty(),
        })),
        reply matches Reply::Rejected(text) ==> (if first_attempt && occurs_in(
            CODE_REQUIRED@,
            text@,
        ) {
            step is AskCode
        } else {
            step matches LoginStep::Failed(e) && e@ == AppErrorView::Auth(text@)
        }),
{
    match reply {
        Reply::Accepted(response) => LoginStep::Done(session_of(response)),
        Reply::Rejected(text) => {
            if first_attempt && contains(text.as_str(), CODE_REQUIRED) {
                LoginStep::AskCode
            } else {
                LoginStep::Failed(AppError::Auth(text))
            }
        },
    }
}

} // verus!
