//! All handlers as one state machine.
//!
//! A [`Flow`] is a handler under way. Its caller performs the action it
//! asked for, hands the outcome to [`Flow::step`], and goes on until the
//! action is a response.

use vstd::prelude::*;
use crate::authentication::{auth_step, AuthFlow, AuthFlowView};
use crate::errors::Error;
use crate::images::{image_step, ImageFlow, ImageFlowView};
use crate::jobs::{job_step, JobFlow, JobFlowView};
use crate::protocol::{Action, ActionView, Event, EventView};
use crate::users::{user_step, UserFlow, UserFlowView};

verus! {

/// A handler under way, or one that has answered.
#[derive(Debug)]
pub enum Flow {
    Auth(AuthFlow),
    Users(UserFlow),
    Images(ImageFlow),
    Jobs(JobFlow),
    /// The response has been handed out.
    Finished,
}

pub enum FlowView {
    Auth(AuthFlowView),
    Users(UserFlowView),
    Images(ImageFlowView),
    Jobs(JobFlowView),
    Finished,
}

impl View for Flow {
    type V = FlowView;

    open spec fn view(&self) -> FlowView {
        match self {
            Flow::Auth(flow) => FlowView::Auth(flow@),
            Flow::Users(flow) => FlowView::Users(flow@),
            Flow::Images(flow) => FlowView::Images(flow@),
            Flow::Jobs(flow) => FlowView::Jobs(flow@),
            Flow::Finished => FlowView::Finished,
        }
    }
}

impl FlowView {
    /// A session handler, or the end where it has answered.
    pub open spec fn auth(next: (Option<AuthFlowView>, ActionView)) -> (FlowView, ActionView) {
        match next.0 {
            Some(flow) => (FlowView::Auth(flow), next.1),
            None => (FlowView::Finished, next.1),
        }
    }

    /// A user handler, or the end where it has answered.
    pub open spec fn users(next: (Option<UserFlowView>, ActionView)) -> (FlowView, ActionView) {
        match next.0 {
            Some(flow) => (FlowView::Users(flow), next.1),
            None => (FlowView::Finished, next.1),
        }
    }

    /// An image handler, or the end where it has answered.
    pub open spec fn images(next: (Option<ImageFlowView>, ActionView)) -> (FlowView, ActionView) {
        match next.0 {
            Some(flow) => (FlowView::Images(flow), next.1),
            None => (FlowView::Finished, next.1),
        }
    }

    /// A job handler, or the end where it has answered.
    pub open spec fn jobs(next: (Option<JobFlowView>, ActionView)) -> (FlowView, ActionView) {
        match next.0 {
            Some(flow) => (FlowView::Jobs(flow), next.1),
            None => (FlowView::Finished, next.1),
        }
    }

    /// What a handler does on an event. One that has answered has nothing
    /// left to do: asked again, it reports a failure.
    pub open spec fn step(self, event: EventView) -> (FlowView, ActionView) {
        match self {
            FlowView::Auth(flow) => FlowView::auth(auth_step(flow, event)),
            FlowView::Users(flow) => FlowView::users(user_step(flow, event)),
            FlowView::Images(flow) => FlowView::images(image_step(flow, event)),
            FlowView::Jobs(flow) => FlowView::jobs(job_step(flow, event)),
            FlowView::Finished => (FlowView::Finished, ActionView::fail(Error::StoreError)),
        }
    }
}

impl Flow {
    /// Wraps a session handler.
    pub fn auth(next: (Option<AuthFlow>, Action)) -> (lifted: (Flow, Action))
        ensures
            (lifted.0@, lifted.1@) == FlowView::auth(
                (crate::authentication::auth_flow_view(next.0), next.1@),
            ),
    {
        match next.0 {
            Some(flow) => (Flow::Auth(flow), next.1),
            None => (Flow::Finished, next.1),
        }
    }

    /// Wraps a user handler.
    pub fn users(next: (Option<UserFlow>, Action)) -> (lifted: (Flow, Action))
        ensures
            (lifted.0@, lifted.1@) == FlowView::users(
                (crate::users::user_flow_view(next.0), next.1@),
            ),
    {
        match next.0 {
            Some(flow) => (Flow::Users(flow), next.1),
            None => (Flow::Finished, next.1),
        }
    }

    /// Wraps an image handler.
    pub fn images(next: (Option<ImageFlow>, Action)) -> (lifted: (Flow, Action))
        ensures
            (lifted.0@, lifted.1@) == FlowView::images(
                (crate::images::image_flow_view(next.0), next.1@),
            ),
    {
        match next.0 {
            Some(flow) => (Flow::Images(flow), next.1),
            None => (Flow::Finished, next.1),
        }
    }

    /// Wraps a job handler.
    pub fn jobs(next: (Option<JobFlow>, Action)) -> (lifted: (Flow, Action))
        ensures
            (lifted.0@, lifted.1@) == FlowView::jobs((crate::jobs::job_flow_view(next.0), next.1@)),
    {
        match next.0 {
            Some(flow) => (Flow::Jobs(flow), next.1),
            None => (Flow::Finished, next.1),
        }
    }

    /// Whether the handler has answered.
    pub fn is_finished(&self) -> (finished: bool)
        ensures
            finished == (self@ is Finished),
    {
        match self {
            Flow::Finished => true,
            _ => false,
        }
    }

    /// Takes what came of the last action and says what to do next.
    pub fn step(self, event: Event) -> (next: (Flow, Action))
        ensures
            (next.0@, next.1@) == self@.step(event@),
    {
        match self {
            Flow::Auth(flow) => Flow::auth(flow.step(event)),
            Flow::Users(flow) => Flow::users(flow.step(event)),
            Flow::Images(flow) => Flow::images(flow.step(event)),
            Flow::Jobs(flow) => Flow::jobs(flow.step(event)),
            Flow::Finished => (Flow::Finished, Action::fail(Error::StoreError)),
        }
    }
}

impl FlowView {
    /// The most steps that the handler can still take before it answers.
    pub open spec fn remaining(self) -> nat {
        match self {
            FlowView::Auth(flow) => match flow {
                AuthFlowView::FindingUser { .. } => 2,
                AuthFlowView::Storing { .. } => 1,
                AuthFlowView::ResolvingSession => 2,
                AuthFlowView::LoadingUser { .. } => 1,
            },
            FlowView::Users(flow) => match flow {
                UserFlowView::Opening { .. } => 4,
                UserFlowView::Inserting { .. } => 3,
                UserFlowView::Naming { .. } => 2,
                UserFlowView::Committing { .. } => 1,
                UserFlowView::Aborting { .. } => 1,
                UserFlowView::Loading { .. } => 1,
            },
            FlowView::Images(flow) => match flow {
                ImageFlowView::Opening { .. } => 4,
                ImageFlowView::InsertingImage { .. } => 3,
                ImageFlowView::InsertingVersion { .. } => 2,
                ImageFlowView::Committing { .. } => 1,
                ImageFlowView::Aborting { .. } => 1,
                ImageFlowView::Listing { .. } => 1,
                ImageFlowView::CheckingOwner { .. } => 2,
                ImageFlowView::ListingVersions { .. } => 1,
            },
            FlowView::Jobs(flow) => match flow {
                JobFlowView::Opening { .. } => 6,
                JobFlowView::LoadingImage { .. } => 5,
                JobFlowView::LoadingVersions { .. } => 4,
                JobFlowView::Inserting { .. } => 3,
                JobFlowView::Provisioning { .. } => 2,
                JobFlowView::Committing { .. } => 1,
                JobFlowView::Aborting { .. } => 1,
                JobFlowView::Listing { .. } => 1,
            },
            FlowView::Finished => 0,
        }
    }
}

impl FlowView {
    /// Whether the handler stands inside a transaction: one was opened
    /// for it and it has asked neither to commit it nor to roll it back.
    pub open spec fn transacting(self) -> bool {
        match self {
            FlowView::Users(flow) => flow is Inserting || flow is Naming,
            FlowView::Images(flow) => flow is InsertingImage || flow is InsertingVersion,
            FlowView::Jobs(flow) => flow is LoadingImage || flow is LoadingVersions
                || flow is Inserting || flow is Provisioning,
            _ => false,
        }
    }

    /// Whether the handler has asked for a transaction and waits for it.
    pub open spec fn opening(self) -> bool {
        match self {
            FlowView::Users(flow) => flow is Opening,
            FlowView::Images(flow) => flow is Opening,
            FlowView::Jobs(flow) => flow is Opening,
            _ => false,
        }
    }
}

/// Transactions are scoped to one handler and closed on every path. A
/// handler asks for a transaction only when it begins, and enters it
/// only when it was opened; it writes records and reaches the
/// provisioning service only inside one; and it leaves one only by
/// asking to commit it or to roll it back, whatever happened in between.
pub proof fn transactions_are_scoped(flow: FlowView, event: EventView)
    ensures
        ({
            let (next, action) = flow.step(event);
            &&& !(action is Begin)
            &&& (action.writes_records() || action.provisions()) ==> next.transacting()
            &&& next.transacting() && !flow.transacting() ==> flow.opening() && event is Done
            &&& flow.transacting() && !next.transacting() ==> action is Commit || action is Rollback
            &&& (action is Commit || action is Rollback) ==> flow.transacting()
        }),
{
}

/// Every step brings the answer nearer, whatever the event: no handler
/// goes on for ever, and none takes more than six steps.
pub proof fn every_step_nears_the_answer(flow: FlowView, event: EventView)
    ensures
        flow.remaining() <= 6,
        !(flow is Finished) ==> flow.step(event).0.remaining() < flow.remaining(),
{
}

/// A handler goes on exactly until it answers: the action is a response
/// if and only if nothing follows.
pub proof fn answers_at_the_end(flow: FlowView, event: EventView)
    ensures
        (flow.step(event).1 is Respond) <==> (flow.step(event).0 is Finished),
{
}

/// Once the job handler has left the path to success it only rolls back
/// or answers with a failure: nothing is written and nothing provisioned
/// after a failure.
pub proof fn nothing_follows_a_failure(error: Error, event: EventView)
    ensures
        job_step(JobFlowView::Aborting { error }, event) == (
            None::<JobFlowView>,
            ActionView::fail(error),
        ),
{
}

/// The order of the stages of creating a job. The versions are asked for
/// only of an image that the requester owns; the job row is written only
/// for a version resolved among that image's versions; the machine is
/// asked for only once the job row is written; the transaction is
/// committed only once the machine is there; and success is reported
/// only once the commit is done.
pub proof fn job_stages_in_order(flow: JobFlowView, event: EventView)
    ensures
        job_step(flow, event).1 is ReadVersionsOfImage ==> {
            &&& flow matches JobFlowView::LoadingImage { user_id, request }
            &&& event matches EventView::Image(Some(image))
            &&& image.id == request.image_id
            &&& image.user_id == user_id
        },
        job_step(flow, event).1 matches ActionView::InsertJob {
            user_id: owner,
            status,
            image_version_id,
        } ==> {
            &&& flow matches JobFlowView::LoadingVersions { user_id, request, image }
            &&& event matches EventView::Versions(versions)
            &&& crate::ownership::find_version(versions, request.image_id, request.image_version_id)
                matches Some(version)
            &&& version.id == image_version_id
            &&& owner == user_id
            &&& status == crate::models::JobStatus::Pending
        },
        job_step(flow, event).1 is CreateMachine ==> {
            &&& flow matches JobFlowView::Inserting { user_id, image_version_id, machine }
            &&& event matches EventView::Job(job)
            &&& crate::jobs::is_requested_job(job, user_id, image_version_id)
        },
        job_step(flow, event).1 is Commit ==> flow is Provisioning && event is Done,
        job_step(flow, event).1 matches ActionView::Respond { response } && response.error()
            is None ==> (flow is Committing || flow is Listing),
{
}

} // verus!
