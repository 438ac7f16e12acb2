//! The vocabulary between a handler and the services around it.
//!
//! A handler never touches a store or the provisioning service. It hands
//! out an [`Action`], the caller performs it and hands back an [`Event`],
//! and so on until the action is a [`Response`]. Each operation is awaited
//! before the next is asked for, and none is retried.

use vstd::prelude::*;
use crate::errors::{Error, STATUS_CREATED, STATUS_OK};
use crate::ids::Uuid;
use crate::models::{
    image_views, version_views, Image, ImageVersion, ImageVersionView, ImageView, Job, JobStatus,
    NonSecureUser, NonSecureUserView, User, UserView,
};
use crate::provisioning::{AppRequest, AppRequestView, MachineRequest, MachineRequestView};
use crate::session::{SessionResponse, SessionResponseView};

verus! {

/// What a response carries.
#[derive(Debug)]
pub enum Body {
    /// The user that a credential resolved to.
    Identity(User),
    User(NonSecureUser),
    Session(SessionResponse),
    Image(Image),
    Images(Vec<Image>),
    Versions(Vec<ImageVersion>),
    Job(Job),
    Jobs(Vec<Job>),
    Failure(Error),
}

pub enum BodyView {
    Identity(UserView),
    User(NonSecureUserView),
    Session(SessionResponseView),
    Image(ImageView),
    Images(Seq<ImageView>),
    Versions(Seq<ImageVersionView>),
    Job(Job),
    Jobs(Seq<Job>),
    Failure(Error),
}

impl View for Body {
    type V = BodyView;

    open spec fn view(&self) -> BodyView {
        match self {
            Body::Identity(user) => BodyView::Identity(user@),
            Body::User(user) => BodyView::User(user@),
            Body::Session(session) => BodyView::Session(session@),
            Body::Image(image) => BodyView::Image(image@),
            Body::Images(images) => BodyView::Images(image_views(images@)),
            Body::Versions(versions) => BodyView::Versions(version_views(versions@)),
            Body::Job(job) => BodyView::Job(*job),
            Body::Jobs(jobs) => BodyView::Jobs(jobs@),
            Body::Failure(error) => BodyView::Failure(*error),
        }
    }
}

/// The outcome of a request: a status and what goes with it.
#[derive(Debug)]
pub struct Response {
    pub status: u16,
    pub body: Body,
}

pub struct ResponseView {
    pub status: u16,
    pub body: BodyView,
}

impl View for Response {
    type V = ResponseView;

    open spec fn view(&self) -> ResponseView {
        ResponseView { status: self.status, body: self.body@ }
    }
}

impl ResponseView {
    /// The response to a read that succeeded.
    pub open spec fn ok(body: BodyView) -> ResponseView {
        ResponseView { status: STATUS_OK, body }
    }

    /// The response to a creation that succeeded.
    pub open spec fn created(body: BodyView) -> ResponseView {
        ResponseView { status: STATUS_CREATED, body }
    }

    /// The response to a request that failed.
    pub open spec fn failure(error: Error) -> ResponseView {
        ResponseView { status: error.status_code(), body: BodyView::Failure(error) }
    }

    /// The failure that the response reports, if it reports one.
    pub open spec fn error(self) -> Option<Error> {
        match self.body {
            BodyView::Failure(error) => Some(error),
            _ => None,
        }
    }
}

impl Response {
    pub fn ok(body: Body) -> (response: Response)
        ensures
            response@ == ResponseView::ok(body@),
    {
        Response { status: STATUS_OK, body }
    }

    pub fn created(body: Body) -> (response: Response)
        ensures
            response@ == ResponseView::created(body@),
    {
        Response { status: STATUS_CREATED, body }
    }

    pub fn failure(error: Error) -> (response: Response)
        ensures
            response@ == ResponseView::failure(error),
    {
        Response { status: error.status(), body: Body::Failure(error) }
    }

    /// The failure that the response reports, if it reports one.
    pub fn error(&self) -> (error: Option<Error>)
        ensures
            error == self@.error(),
    {
        match &self.body {
            Body::Failure(error) => Some(*error),
            _ => None,
        }
    }
}

/// What a handler asks its caller to do next.
#[derive(Debug)]
pub enum Action {
    /// Open a transaction on the record store.
    Begin,
    /// Make the open transaction's writes durable and visible.
    Commit,
    /// Drop the open transaction's writes.
    Rollback,
    InsertUser { email: String, password_hash: String },
    ReadUser { id: Uuid },
    ReadUserByEmail { email: String },
    InsertImage { user_id: Uuid, nickname: String, image_url: String },
    ReadImage { id: Uuid },
    ReadImagesOfUser { user_id: Uuid },
    InsertVersion { image_id: Uuid, hash: String, version_number: String },
    ReadVersionsOfImage { image_id: Uuid },
    InsertJob { user_id: Uuid, status: JobStatus, image_version_id: Uuid },
    ReadJobsOfUser { user_id: Uuid },
    /// Look a session up in the credential store.
    GetSession { key: String },
    /// Keep a session in the credential store for the given time.
    PutSession { key: String, user_id: Uuid, ttl_seconds: u64 },
    /// Ask the provisioning service for an application namespace.
    CreateApp { app: AppRequest },
    /// Ask the provisioning service for a machine.
    CreateMachine { machine: MachineRequest },
    /// Answer the request. Nothing follows.
    Respond { response: Response },
}

pub enum ActionView {
    Begin,
    Commit,
    Rollback,
    InsertUser { email: Seq<char>, password_hash: Seq<char> },
    ReadUser { id: Uuid },
    ReadUserByEmail { email: Seq<char> },
    InsertImage { user_id: Uuid, nickname: Seq<char>, image_url: Seq<char> },
    ReadImage { id: Uuid },
    ReadImagesOfUser { user_id: Uuid },
    InsertVersion { image_id: Uuid, hash: Seq<char>, version_number: Seq<char> },
    ReadVersionsOfImage { image_id: Uuid },
    InsertJob { user_id: Uuid, status: JobStatus, image_version_id: Uuid },
    ReadJobsOfUser { user_id: Uuid },
    GetSession { key: Seq<char> },
    PutSession { key: Seq<char>, user_id: Uuid, ttl_seconds: u64 },
    CreateApp { app: AppRequestView },
    CreateMachine { machine: MachineRequestView },
    Respond { response: ResponseView },
}

impl View for Action {
    type V = ActionView;

    open spec fn view(&self) -> ActionView {
        match self {
            Action::Begin => ActionView::Begin,
            Action::Commit => ActionView::Commit,
            Action::Rollback => ActionView::Rollback,
            Action::InsertUser { email, password_hash } => ActionView::InsertUser {
                email: email@,
                password_hash: password_hash@,
            },
            Action::ReadUser { id } => ActionView::ReadUser { id: *id },
            Action::ReadUserByEmail { email } => ActionView::ReadUserByEmail { email: email@ },
            Action::InsertImage { user_id, nickname, image_url } => ActionView::InsertImage {
                user_id: *user_id,
                nickname: nickname@,
                image_url: image_url@,
            },
            Action::ReadImage { id } => ActionView::ReadImage { id: *id },
            Action::ReadImagesOfUser { user_id } => ActionView::ReadImagesOfUser {
                user_id: *user_id,
            },
            Action::InsertVersion { image_id, hash, version_number } => ActionView::InsertVersion {
                image_id: *image_id,
                hash: hash@,
                version_number: version_number@,
            },
            Action::ReadVersionsOfImage { image_id } => ActionView::ReadVersionsOfImage {
                image_id: *image_id,
            },
            Action::InsertJob { user_id, status, image_version_id } => ActionView::InsertJob {
                user_id: *user_id,
                status: *status,
                image_version_id: *image_version_id,
            },
            Action::ReadJobsOfUser { user_id } => ActionView::ReadJobsOfUser { user_id: *user_id },
            Action::GetSession { key } => ActionView::GetSession { key: key@ },
            Action::PutSession { key, user_id, ttl_seconds } => ActionView::PutSession {
                key: key@,
                user_id: *user_id,
                ttl_seconds: *ttl_seconds,
            },
            Action::CreateApp { app } => ActionView::CreateApp { app: app@ },
            Action::CreateMachine { machine } => ActionView::CreateMachine { machine: machine@ },
            Action::Respond { response } => ActionView::Respond { response: response@ },
        }
    }
}

impl ActionView {
    /// The action that answers with a failure.
    pub open spec fn fail(error: Error) -> ActionView {
        ActionView::Respond { response: ResponseView::failure(error) }
    }

    /// Whether the action writes to the record store.
    pub open spec fn writes_records(self) -> bool {
        self is InsertUser || self is InsertImage || self is InsertVersion || self is InsertJob
    }

    /// Whether the action reaches the provisioning service.
    pub open spec fn provisions(self) -> bool {
        self is CreateApp || self is CreateMachine
    }
}

impl Action {
    /// The action that answers with a failure.
    pub fn fail(error: Error) -> (action: Action)
        ensures
            action@ == ActionView::fail(error),
    {
        Action::Respond { response: Response::failure(error) }
    }
}

/// What came of an action.
#[derive(Debug)]
pub enum Event {
    /// The operation succeeded and returns nothing.
    Done,
    /// The operation failed.
    Failed,
    /// The user read or inserted; `None` where no row matched.
    User(Option<User>),
    /// The image read or inserted; `None` where no row matched.
    Image(Option<Image>),
    Images(Vec<Image>),
    /// The image version inserted.
    Version(ImageVersion),
    Versions(Vec<ImageVersion>),
    /// The job inserted.
    Job(Job),
    Jobs(Vec<Job>),
    /// The user that a session is bound to; `None` where the credential
    /// store holds no live entry, or one that names no user.
    Session(Option<Uuid>),
}

pub enum EventView {
    Done,
    Failed,
    User(Option<UserView>),
    Image(Option<ImageView>),
    Images(Seq<ImageView>),
    Version(ImageVersionView),
    Versions(Seq<ImageVersionView>),
    Job(Job),
    Jobs(Seq<Job>),
    Session(Option<Uuid>),
}

impl View for Event {
    type V = EventView;

    open spec fn view(&self) -> EventView {
        match self {
            Event::Done => EventView::Done,
            Event::Failed => EventView::Failed,
            Event::User(user) => EventView::User(
                match user {
                    Some(user) => Some(user@),
                    None => None,
                },
            ),
            Event::Image(image) => EventView::Image(
                match image {
                    Some(image) => Some(image@),
                    None => None,
                },
            ),
            Event::Images(images) => EventView::Images(image_views(images@)),
            Event::Version(version) => EventView::Version(version@),
            Event::Versions(versions) => EventView::Versions(version_views(versions@)),
            Event::Job(job) => EventView::Job(*job),
            Event::Jobs(jobs) => EventView::Jobs(jobs@),
            Event::Session(user_id) => EventView::Session(*user_id),
        }
    }
}

/// The event that stands for what a lookup in the credential store gave.
/// A failed lookup, a miss and an entry that is no identifier all stand
/// for no session.
pub open spec fn session_event_for(reply: Option<Option<Seq<char>>>) -> EventView {
    match reply {
        Some(Some(value)) => EventView::Session(Uuid::parsed(value)),
        _ => EventView::Session(None),
    }
}

/// Turns what a lookup in the credential store gave into an event:
/// `None` for a lookup that failed, `Some(None)` for a miss, and the
/// stored value otherwise.
pub fn session_event(reply: Option<Option<&str>>) -> (event: Event)
    ensures
        event@ == session_event_for(
            match reply {
                Some(Some(value)) => Some(Some(value@)),
                Some(None) => Some(None),
                None => None,
            },
        ),
{
    match reply {
        Some(Some(value)) => Event::Session(Uuid::parse_str(value)),
        _ => Event::Session(None),
    }
}

} // verus!
