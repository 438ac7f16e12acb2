//! Users: registration, and showing a user its own record.
//!
//! Registration writes the user row and asks the provisioning service
//! for an application namespace named by the new user's identifier, both
//! inside one transaction: a user whose namespace could not be created is
//! not registered.

use vstd::prelude::*;
use vstd::string::*;
use crate::errors::Error;
use crate::ids::Uuid;
use crate::models::{id_of, User, UserView};
use crate::protocol::{Action, ActionView, Body, BodyView, Event, EventView, Response, ResponseView};
use crate::provisioning::{app_request_for, create_app_request};
use crate::text::{owned_text_of, same_text};

verus! {

/// Where a user handler stands.
#[derive(Debug)]
pub enum UserFlow {
    /// Registering: the transaction is being opened.
    Opening { email: String, password_hash: String },
    /// Registering: the user row is being written.
    Inserting { email: String },
    /// Registering: the row is written; the namespace is being asked for.
    Naming { user: User },
    /// Registering: the namespace is there; the transaction is being
    /// committed.
    Committing { user: User },
    /// Registering: the request has failed; the transaction is being
    /// rolled back.
    Aborting { error: Error },
    /// Showing: the user's record is being read.
    Loading { user_id: Uuid },
}

pub enum UserFlowView {
    Opening { email: Seq<char>, password_hash: Seq<char> },
    Inserting { email: Seq<char> },
    Naming { user: UserView },
    Committing { user: UserView },
    Aborting { error: Error },
    Loading { user_id: Uuid },
}

impl View for UserFlow {
    type V = UserFlowView;

    open spec fn view(&self) -> UserFlowView {
        match self {
            UserFlow::Opening { email, password_hash } => UserFlowView::Opening {
                email: email@,
                password_hash: password_hash@,
            },
            UserFlow::Inserting { email } => UserFlowView::Inserting { email: email@ },
            UserFlow::Naming { user } => UserFlowView::Naming { user: user@ },
            UserFlow::Committing { user } => UserFlowView::Committing { user: user@ },
            UserFlow::Aborting { error } => UserFlowView::Aborting { error: *error },
            UserFlow::Loading { user_id } => UserFlowView::Loading { user_id: *user_id },
        }
    }
}

/// The view of a handler that may have finished.
pub open spec fn user_flow_view(flow: Option<UserFlow>) -> Option<UserFlowView> {
    match flow {
        Some(flow) => Some(flow@),
        None => None,
    }
}

/// Leaves the transaction: the handler rolls back and will then report
/// `error`.
pub open spec fn abort(error: Error) -> (Option<UserFlowView>, ActionView) {
    (Some(UserFlowView::Aborting { error }), ActionView::Rollback)
}

/// How registration begins, given the hash of the password. Where the
/// password could not be hashed nothing is begun.
pub open spec fn create_user_start(email: Seq<char>, password_hash: Option<Seq<char>>) -> (
    Option<UserFlowView>,
    ActionView,
) {
    match password_hash {
        Some(password_hash) => (
            Some(UserFlowView::Opening { email, password_hash }),
            ActionView::Begin,
        ),
        None => (None, ActionView::fail(Error::StoreError)),
    }
}

/// How showing a user its record begins.
pub open spec fn get_user_start(user_id: Option<Uuid>) -> (Option<UserFlowView>, ActionView) {
    match user_id {
        Some(user_id) => (
            Some(UserFlowView::Loading { user_id }),
            ActionView::ReadUser { id: user_id },
        ),
        None => (None, ActionView::fail(Error::Unauthenticated)),
    }
}

/// What a user handler does on an event.
pub open spec fn user_step(flow: UserFlowView, event: EventView) -> (
    Option<UserFlowView>,
    ActionView,
) {
    match flow {
        UserFlowView::Opening { email, password_hash } => match event {
            EventView::Done => (
                Some(UserFlowView::Inserting { email }),
                ActionView::InsertUser { email, password_hash },
            ),
            _ => (None, ActionView::fail(Error::StoreError)),
        },
        UserFlowView::Inserting { email } => match event {
            EventView::User(Some(user)) => if user.email == email {
                (
                    Some(UserFlowView::Naming { user }),
                    ActionView::CreateApp { app: app_request_for(user.id) },
                )
            } else {
                abort(Error::StoreError)
            },
            _ => abort(Error::StoreError),
        },
        UserFlowView::Naming { user } => match event {
            EventView::Done => (Some(UserFlowView::Committing { user }), ActionView::Commit),
            _ => abort(Error::ProvisioningError),
        },
        UserFlowView::Committing { user } => match event {
            EventView::Done => (
                None,
                ActionView::Respond {
                    response: ResponseView::created(BodyView::User(user.public())),
                },
            ),
            _ => (None, ActionView::fail(Error::StoreError)),
        },
        UserFlowView::Aborting { error } => (None, ActionView::fail(error)),
        UserFlowView::Loading { user_id } => match event {
            EventView::User(Some(user)) => if user.id == user_id {
                (
                    None,
                    ActionView::Respond { response: ResponseView::ok(BodyView::User(user.public())) },
                )
            } else {
                (None, ActionView::fail(Error::StoreError))
            },
            _ => (None, ActionView::fail(Error::StoreError)),
        },
    }
}

fn abort_with(error: Error) -> (next: (Option<UserFlow>, Action))
    ensures
        (user_flow_view(next.0), next.1@) == abort(error),
{
    (Some(UserFlow::Aborting { error }), Action::Rollback)
}

/// Begins a registration, given the hash of the password, or `None`
/// where the password could not be hashed.
pub fn create_user(email: &str, password_hash: Option<String>) -> (next: (
    Option<UserFlow>,
    Action,
))
    ensures
        (user_flow_view(next.0), next.1@) == create_user_start(email@, owned_text_of(password_hash)),
{
    match password_hash {
        Some(password_hash) => (
            Some(UserFlow::Opening { email: String::from_str(email), password_hash }),
            Action::Begin,
        ),
        None => (None, Action::fail(Error::StoreError)),
    }
}

/// Begins showing the authenticated user its record, if there is one.
pub fn get_user(user: Option<&User>) -> (next: (Option<UserFlow>, Action))
    ensures
        (user_flow_view(next.0), next.1@) == get_user_start(id_of(user)),
{
    match user {
        Some(user) => (
            Some(UserFlow::Loading { user_id: user.id }),
            Action::ReadUser { id: user.id },
        ),
        None => (None, Action::fail(Error::Unauthenticated)),
    }
}

impl UserFlow {
    /// Takes what came of the last action and says what to do next.
    pub fn step(self, event: Event) -> (next: (Option<UserFlow>, Action))
        ensures
            (user_flow_view(next.0), next.1@) == user_step(self@, event@),
    {
        match self {
            UserFlow::Opening { email, password_hash } => match event {
                Event::Done => {
                    let row_email = email.clone();
                    (
                        Some(UserFlow::Inserting { email }),
                        Action::InsertUser { email: row_email, password_hash },
                    )
                },
                _ => (None, Action::fail(Error::StoreError)),
            },
            UserFlow::Inserting { email } => match event {
                Event::User(Some(user)) => {
                    if same_text(user.email.as_str(), email.as_str()) {
                        let app = create_app_request(user.id);
                        (Some(UserFlow::Naming { user }), Action::CreateApp { app })
                    } else {
                        abort_with(Error::StoreError)
                    }
                },
                _ => abort_with(Error::StoreError),
            },
            UserFlow::Naming { user } => match event {
                Event::Done => (Some(UserFlow::Committing { user }), Action::Commit),
                _ => abort_with(Error::ProvisioningError),
            },
            UserFlow::Committing { user } => match event {
                Event::Done => (
                    None,
                    Action::Respond { response: Response::created(Body::User(user.to_public())) },
                ),
                _ => (None, Action::fail(Error::StoreError)),
            },
            UserFlow::Aborting { error } => (None, Action::fail(error)),
            UserFlow::Loading { user_id } => match event {
                Event::User(Some(user)) => {
                    if user.id == user_id {
                        (
                            None,
                            Action::Respond { response: Response::ok(Body::User(user.to_public())) },
                        )
                    } else {
                        (None, Action::fail(Error::StoreError))
                    }
                },
                _ => (None, Action::fail(Error::StoreError)),
            },
        }
    }
}

} // verus!
