//! The whole backend in memory: a record store, a credential store, a
//! stand-in for the provisioning service and a clock, with the handlers
//! run against them.
//!
//! Whatever a handler run here does, it does by the same steps that it
//! takes against real services: [`Backend::perform`] plays the services'
//! part, and [`Backend::run`] hands actions and events back and forth
//! until the handler answers.

use vstd::prelude::*;
use crate::credentials::{live_session, with_session, CredentialStore, CredentialsView};
use crate::errors::Error;
use crate::models::Timestamp;
use crate::protocol::{Action, ActionView, Event, EventView, Response, ResponseView};
use crate::provisioning::{Provisioner, ProvisionerView};
use crate::records::{RecordStore, RecordsView};
use crate::workflow::{Flow, FlowView};

verus! {

/// The most steps that a handler is given. No handler takes more.
pub const MAX_STEPS: usize = 6;

/// What the backend holds.
pub struct BackendView {
    pub records: RecordsView,
    pub sessions: CredentialsView,
    pub provisioner: ProvisionerView,
    /// The present moment.
    pub now: Timestamp,
    /// How long a session lives, in seconds.
    pub session_ttl: u64,
}

impl BackendView {
    /// The backend with other records.
    pub open spec fn with_records(self, records: RecordsView) -> BackendView {
        BackendView { records, ..self }
    }

    /// What the services do on an action, and what comes of it.
    pub open spec fn perform(self, action: ActionView) -> (BackendView, EventView) {
        let records = self.records;
        match action {
            ActionView::Begin => if records.transaction is None {
                (self.with_records(records.begun()), EventView::Done)
            } else {
                (self, EventView::Failed)
            },
            ActionView::Commit => if records.transaction is Some {
                (self.with_records(records.committed()), EventView::Done)
            } else {
                (self, EventView::Failed)
            },
            ActionView::Rollback => if records.transaction is Some {
                (self.with_records(records.rolled_back()), EventView::Done)
            } else {
                (self, EventView::Failed)
            },
            ActionView::InsertUser { email, password_hash } => if records.admits_user(email) {
                let user = records.new_user(email, password_hash, self.now);
                (self.with_records(records.with_user(user)), EventView::User(Some(user)))
            } else {
                (self, EventView::Failed)
            },
            ActionView::ReadUser { id } => (self, EventView::User(records.user(id))),
            ActionView::ReadUserByEmail { email } => (
                self,
                EventView::User(records.user_by_email(email)),
            ),
            ActionView::InsertImage { user_id, nickname, image_url } => if records.has_room() {
                let image = records.new_image(user_id, nickname, image_url, self.now);
                (self.with_records(records.with_image(image)), EventView::Image(Some(image)))
            } else {
                (self, EventView::Failed)
            },
            ActionView::ReadImage { id } => (self, EventView::Image(records.image(id))),
            ActionView::ReadImagesOfUser { user_id } => (
                self,
                EventView::Images(records.images_of_user(user_id)),
            ),
            ActionView::InsertVersion { image_id, hash, version_number } => if records.has_room() {
                let version = records.new_version(image_id, hash, version_number, self.now);
                (self.with_records(records.with_version(version)), EventView::Version(version))
            } else {
                (self, EventView::Failed)
            },
            ActionView::ReadVersionsOfImage { image_id } => (
                self,
                EventView::Versions(records.versions_of_image(image_id)),
            ),
            ActionView::InsertJob { user_id, status, image_version_id } => if records.has_room() {
                let job = records.new_job(user_id, status, image_version_id, self.now);
                (self.with_records(records.with_job(job)), EventView::Job(job))
            } else {
                (self, EventView::Failed)
            },
            ActionView::ReadJobsOfUser { user_id } => (
                self,
                EventView::Jobs(records.jobs_of_user(user_id)),
            ),
            ActionView::GetSession { key } => (
                self,
                EventView::Session(live_session(self.sessions, key, self.now)),
            ),
            ActionView::PutSession { key, user_id, ttl_seconds } => (
                BackendView {
                    sessions: with_session(self.sessions, key, user_id, ttl_seconds, self.now),
                    ..self
                },
                EventView::Done,
            ),
            ActionView::CreateApp { app } => (
                BackendView { provisioner: self.provisioner.asked_for_app(app), ..self },
                if self.provisioner.reachable {
                    EventView::Done
                } else {
                    EventView::Failed
                },
            ),
            ActionView::CreateMachine { machine } => (
                BackendView { provisioner: self.provisioner.asked_for_machine(machine), ..self },
                if self.provisioner.reachable {
                    EventView::Done
                } else {
                    EventView::Failed
                },
            ),
            ActionView::Respond { response } => (self, EventView::Failed),
        }
    }

    /// What comes of running a handler that has asked for `action`: the
    /// backend it leaves and its answer. A handler that has not answered
    /// after `steps` steps is cut short with a failure.
    pub open spec fn run(self, flow: FlowView, action: ActionView, steps: nat) -> (
        BackendView,
        ResponseView,
    )
        decreases steps,
    {
        match action {
            ActionView::Respond { response } => (self, response),
            _ => if steps == 0 {
                (self, ResponseView::failure(Error::StoreError))
            } else {
                let (backend, event) = self.perform(action);
                let (next, asked) = flow.step(event);
                backend.run(next, asked, (steps - 1) as nat)
            },
        }
    }
}

/// A handler is given steps enough: with as many steps as it can still
/// take, more steps change nothing. So no handler that was begun, or
/// stepped, as this crate does it is ever cut short.
pub proof fn steps_suffice(backend: BackendView, flow: FlowView, action: ActionView, steps: nat)
    requires
        (action is Respond) <==> (flow is Finished),
        steps >= flow.remaining(),
    ensures
        backend.run(flow, action, steps) == backend.run(flow, action, steps + 1),
    decreases steps,
{
    reveal_with_fuel(BackendView::run, 2);
    if !(action is Respond) {
        let (after, event) = backend.perform(action);
        let (next, asked) = flow.step(event);
        crate::workflow::every_step_nears_the_answer(flow, event);
        crate::workflow::answers_at_the_end(flow, event);
        steps_suffice(after, next, asked, (steps - 1) as nat);
    }
}

/// The backend in memory.
pub struct Backend {
    records: RecordStore,
    sessions: CredentialStore,
    provisioner: Provisioner,
    now: Timestamp,
    session_ttl: u64,
}

impl View for Backend {
    type V = BackendView;

    closed spec fn view(&self) -> BackendView {
        BackendView {
            records: self.records@,
            sessions: self.sessions@,
            provisioner: self.provisioner@,
            now: self.now,
            session_ttl: self.session_ttl,
        }
    }
}

impl Backend {
    /// Whether the backend is consistent: its stores are.
    pub closed spec fn wf(&self) -> bool {
        self.records@.wf() && self.sessions.wf()
    }

    /// What `wf` says of the records.
    pub proof fn wf_records(&self)
        requires
            self.wf(),
        ensures
            self@.records.wf(),
    {
    }

    /// A backend that holds nothing, at the moment `now`, whose sessions
    /// live for `session_ttl` seconds and whose provisioning succeeds.
    pub fn new(now: Timestamp, session_ttl: u64) -> (backend: Backend)
        ensures
            backend.wf(),
            backend@ == (BackendView {
                records: RecordsView::empty(),
                sessions: Map::empty(),
                provisioner: ProvisionerView {
                    reachable: true,
                    apps: Seq::empty(),
                    machines: Seq::empty(),
                },
                now,
                session_ttl,
            }),
            backend@.sound(),
    {
        Backend {
            records: RecordStore::new(),
            sessions: CredentialStore::new(),
            provisioner: Provisioner::new(),
            now,
            session_ttl,
        }
    }

    /// Sets the clock.
    pub fn set_time(&mut self, now: Timestamp)
        requires
            old(self).wf(),
        ensures
            final(self).wf(),
            final(self)@ == (BackendView { now, ..old(self)@ }),
    {
        self.now = now;
    }

    /// Makes provisioning succeed or fail from now on.
    pub fn set_provisioning(&mut self, reachable: bool)
        requires
            old(self).wf(),
        ensures
            final(self).wf(),
            final(self)@ == (BackendView {
                provisioner: ProvisionerView { reachable, ..old(self)@.provisioner },
                ..old(self)@
            }),
    {
        self.provisioner.set_reachable(reachable);
    }

    /// The stand-in for the provisioning service, to see what was asked
    /// of it.
    pub fn provisioner(&self) -> (service: &Provisioner)
        ensures
            service@ == self@.provisioner,
    {
        &self.provisioner
    }

    /// How long a session lives, in seconds.
    pub fn session_ttl(&self) -> (seconds: u64)
        ensures
            seconds == self@.session_ttl,
    {
        self.session_ttl
    }

    /// Plays the services' part: does what an action asks for and says
    /// what came of it.
    pub fn perform(&mut self, action: Action) -> (event: Event)
        requires
            old(self).wf(),
        ensures
            final(self).wf(),
            (final(self)@, event@) == old(self)@.perform(action@),
    {
        match action {
            Action::Begin => if self.records.begin() {
                Event::Done
            } else {
                Event::Failed
            },
            Action::Commit => if self.records.commit() {
                Event::Done
            } else {
                Event::Failed
            },
            Action::Rollback => if self.records.rollback() {
                Event::Done
            } else {
                Event::Failed
            },
            Action::InsertUser { email, password_hash } => {
                match self.records.insert_user(email, password_hash, self.now) {
                    Some(user) => Event::User(Some(user)),
                    None => Event::Failed,
                }
            },
            Action::ReadUser { id } => Event::User(self.records.read_user(id)),
            Action::ReadUserByEmail { email } => Event::User(
                self.records.read_user_by_email(email.as_str()),
            ),
            Action::InsertImage { user_id, nickname, image_url } => {
                match self.records.insert_image(user_id, nickname, image_url, self.now) {
                    Some(image) => Event::Image(Some(image)),
                    None => Event::Failed,
                }
            },
            Action::ReadImage { id } => Event::Image(self.records.read_image(id)),
            Action::ReadImagesOfUser { user_id } => Event::Images(
                self.records.read_images_where_user_id(user_id),
            ),
            Action::InsertVersion { image_id, hash, version_number } => {
                match self.records.insert_version(image_id, hash, version_number, self.now) {
                    Some(version) => Event::Version(version),
                    None => Event::Failed,
                }
            },
            Action::ReadVersionsOfImage { image_id } => Event::Versions(
                self.records.read_versions_where_image_id(image_id),
            ),
            Action::InsertJob { user_id, status, image_version_id } => {
                match self.records.insert_job(user_id, status, image_version_id, self.now) {
                    Some(job) => Event::Job(job),
                    None => Event::Failed,
                }
            },
            Action::ReadJobsOfUser { user_id } => Event::Jobs(
                self.records.read_jobs_where_user_id(user_id),
            ),
            Action::GetSession { key } => Event::Session(self.sessions.get(key.as_str(), self.now)),
            Action::PutSession { key, user_id, ttl_seconds } => {
                self.sessions.set_ex(key, user_id, ttl_seconds, self.now);
                Event::Done
            },
            Action::CreateApp { app } => if self.provisioner.create_app(app) {
                Event::Done
            } else {
                Event::Failed
            },
            Action::CreateMachine { machine } => if self.provisioner.create_machine(machine) {
                Event::Done
            } else {
                Event::Failed
            },
            Action::Respond { response } => Event::Failed,
        }
    }

    /// Runs a handler that has asked for `action` until it answers.
    #[verifier::loop_isolation(false)]
    pub fn run(&mut self, flow: Flow, action: Action) -> (response: Response)
        requires
            old(self).wf(),
        ensures
            final(self).wf(),
            (final(self)@, response@) == old(self)@.run(flow@, action@, MAX_STEPS as nat),
    {
        let ghost outcome = self@.run(flow@, action@, MAX_STEPS as nat);
        let mut current = flow;
        let mut asked = action;
        let mut steps: usize = MAX_STEPS;
        loop
            invariant
                self.wf(),
                self@.run(current@, asked@, steps as nat) == outcome,
            decreases steps,
        {
            match asked {
                Action::Respond { response } => {
                    return response;
                },
                pending => {
                    if steps == 0 {
                        return Response::failure(Error::StoreError);
                    }
                    let event = self.perform(pending);
                    let next = current.step(event);
                    current = next.0;
                    asked = next.1;
                    steps = steps - 1;
                },
            }
        }
    }
}

} // verus!
