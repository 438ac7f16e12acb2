//! The session manager: logging in, and resolving the credential of a
//! request to a user.
//!
//! Logging in loads the user by email and checks the password against
//! the stored hash; a wrong password and an unknown email are answered
//! alike. On success a session is kept in the credential store and its
//! token handed out.
//!
//! Resolving a credential looks the presented token up in the credential
//! store. A miss, an entry that names no user and a failed lookup all
//! mean that the request is unauthenticated. A session that names a user
//! whom the record store no longer has is a broken invariant: it is
//! reported as a failure of the store, never as a missing credential and
//! never by letting the request through.

use vstd::prelude::*;
use vstd::string::*;
use crate::errors::Error;
use crate::ids::Uuid;
use crate::models::UserView;
use crate::passwords::{password_matches, verify_password};
use crate::protocol::{Action, ActionView, Body, BodyView, Event, EventView, Response, ResponseView};
use crate::session::{
    _session_key, extract_token, presented_token, session_key, session_response,
    session_response_for,
};
use crate::text::{same_text, text_of};

verus! {

/// Where a session handler stands.
#[derive(Debug)]
pub enum AuthFlow {
    /// Logging in: the user is being loaded by email.
    FindingUser { email: String, password: String, token: String, ttl_seconds: u64 },
    /// Logging in: the session is being kept.
    Storing { token: String },
    /// Resolving: the session is being looked up.
    ResolvingSession,
    /// Resolving: the user that the session names is being loaded.
    LoadingUser { user_id: Uuid },
}

pub enum AuthFlowView {
    FindingUser { email: Seq<char>, password: Seq<char>, token: Seq<char>, ttl_seconds: u64 },
    Storing { token: Seq<char> },
    ResolvingSession,
    LoadingUser { user_id: Uuid },
}

impl View for AuthFlow {
    type V = AuthFlowView;

    open spec fn view(&self) -> AuthFlowView {
        match self {
            AuthFlow::FindingUser { email, password, token, ttl_seconds } => {
                AuthFlowView::FindingUser {
                    email: email@,
                    password: password@,
                    token: token@,
                    ttl_seconds: *ttl_seconds,
                }
            },
            AuthFlow::Storing { token } => AuthFlowView::Storing { token: token@ },
            AuthFlow::ResolvingSession => AuthFlowView::ResolvingSession,
            AuthFlow::LoadingUser { user_id } => AuthFlowView::LoadingUser { user_id: *user_id },
        }
    }
}

/// The view of a handler that may have finished.
pub open spec fn auth_flow_view(flow: Option<AuthFlow>) -> Option<AuthFlowView> {
    match flow {
        Some(flow) => Some(flow@),
        None => None,
    }
}

/// How logging in begins: by loading the user with the given email.
/// `token` is the token to hand out if the login succeeds.
pub open spec fn create_session_start(
    email: Seq<char>,
    password: Seq<char>,
    token: Seq<char>,
    ttl_seconds: u64,
) -> (Option<AuthFlowView>, ActionView) {
    (
        Some(AuthFlowView::FindingUser { email, password, token, ttl_seconds }),
        ActionView::ReadUserByEmail { email },
    )
}

/// How resolving a credential begins: by looking up the session of the
/// token presented. A request that presents none is unauthenticated.
pub open spec fn authenticate_start(header: Option<Seq<char>>, cookie: Option<Seq<char>>) -> (
    Option<AuthFlowView>,
    ActionView,
) {
    match presented_token(header, cookie) {
        Some(token) => (
            Some(AuthFlowView::ResolvingSession),
            ActionView::GetSession { key: session_key(token) },
        ),
        None => (None, ActionView::fail(Error::Unauthenticated)),
    }
}

/// Whether a user may log in with the given email and password.
pub open spec fn credentials_accepted(user: UserView, email: Seq<char>, password: Seq<char>) -> bool {
    user.email == email && password_matches(password, user.password_hash)
}

/// What a session handler does on an event.
pub open spec fn auth_step(flow: AuthFlowView, event: EventView) -> (
    Option<AuthFlowView>,
    ActionView,
) {
    match flow {
        AuthFlowView::FindingUser { email, password, token, ttl_seconds } => match event {
            EventView::User(Some(user)) => if credentials_accepted(user, email, password) {
                (
                    Some(AuthFlowView::Storing { token }),
                    ActionView::PutSession { key: session_key(token), user_id: user.id, ttl_seconds },
                )
            } else {
                (None, ActionView::fail(Error::Unauthenticated))
            },
            _ => (None, ActionView::fail(Error::Unauthenticated)),
        },
        AuthFlowView::Storing { token } => match event {
            EventView::Done => (
                None,
                ActionView::Respond {
                    response: ResponseView::created(BodyView::Session(session_response_for(token))),
                },
            ),
            _ => (None, ActionView::fail(Error::StoreError)),
        },
        AuthFlowView::ResolvingSession => match event {
            EventView::Session(Some(user_id)) => (
                Some(AuthFlowView::LoadingUser { user_id }),
                ActionView::ReadUser { id: user_id },
            ),
            _ => (None, ActionView::fail(Error::Unauthenticated)),
        },
        AuthFlowView::LoadingUser { user_id } => match event {
            EventView::User(Some(user)) => if user.id == user_id {
                (None, ActionView::Respond { response: ResponseView::ok(BodyView::Identity(user)) })
            } else {
                (None, ActionView::fail(Error::StoreError))
            },
            _ => (None, ActionView::fail(Error::StoreError)),
        },
    }
}

/// Begins a login. `token` is handed out if the login succeeds, and the
/// session then lives for `ttl_seconds`.
pub fn create_session(email: &str, password: &str, token: String, ttl_seconds: u64) -> (next: (
    Option<AuthFlow>,
    Action,
))
    ensures
        (auth_flow_view(next.0), next.1@) == create_session_start(
            email@,
            password@,
            token@,
            ttl_seconds,
        ),
{
    (
        Some(
            AuthFlow::FindingUser {
                email: String::from_str(email),
                password: String::from_str(password),
                token,
                ttl_seconds,
            },
        ),
        Action::ReadUserByEmail { email: String::from_str(email) },
    )
}

/// Begins resolving the credential of a request, given its
/// `Authorization` header and its `Authorization` cookie.
pub fn authenticate(header: Option<&str>, cookie: Option<&str>) -> (next: (
    Option<AuthFlow>,
    Action,
))
    ensures
        (auth_flow_view(next.0), next.1@) == authenticate_start(text_of(header), text_of(cookie)),
{
    match extract_token(header, cookie) {
        Some(token) => (
            Some(AuthFlow::ResolvingSession),
            Action::GetSession { key: _session_key(token.as_str()) },
        ),
        None => (None, Action::fail(Error::Unauthenticated)),
    }
}

impl AuthFlow {
    /// Takes what came of the last action and says what to do next.
    pub fn step(self, event: Event) -> (next: (Option<AuthFlow>, Action))
        ensures
            (auth_flow_view(next.0), next.1@) == auth_step(self@, event@),
    {
        match self {
            AuthFlow::FindingUser { email, password, token, ttl_seconds } => match event {
                Event::User(Some(user)) => {
                    if same_text(user.email.as_str(), email.as_str()) && verify_password(
                        password.as_str(),
                        user.password_hash.as_str(),
                    ) {
                        let key = _session_key(token.as_str());
                        (
                            Some(AuthFlow::Storing { token }),
                            Action::PutSession { key, user_id: user.id, ttl_seconds },
                        )
                    } else {
                        (None, Action::fail(Error::Unauthenticated))
                    }
                },
                _ => (None, Action::fail(Error::Unauthenticated)),
            },
            AuthFlow::Storing { token } => match event {
                Event::Done => (
                    None,
                    Action::Respond {
                        response: Response::created(
                            Body::Session(session_response(token.as_str())),
                        ),
                    },
                ),
                _ => (None, Action::fail(Error::StoreError)),
            },
            AuthFlow::ResolvingSession => match event {
                Event::Session(Some(user_id)) => (
                    Some(AuthFlow::LoadingUser { user_id }),
                    Action::ReadUser { id: user_id },
                ),
                _ => (None, Action::fail(Error::Unauthenticated)),
            },
            AuthFlow::LoadingUser { user_id } => match event {
                Event::User(Some(user)) => {
                    if user.id == user_id {
                        (None, Action::Respond { response: Response::ok(Body::Identity(user)) })
                    } else {
                        (None, Action::fail(Error::StoreError))
                    }
                },
                _ => (None, Action::fail(Error::StoreError)),
            },
        }
    }
}

} // verus!
