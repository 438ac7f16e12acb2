//! Jobs: the workflow that turns "run this image version" into a job
//! record and a remote machine, and the list of a user's jobs.
//!
//! Creating a job goes through fixed stages, each entered only when the
//! one before it succeeded: open a transaction, load the image, check
//! that the requester owns it, resolve the version, write the job row,
//! ask for the machine, commit. Any failure after the transaction is open
//! rolls it back before the error is reported, so that no job row
//! survives a failed request. The machine request itself cannot be
//! undone: it may have reached the provisioning service although the job
//! was never created.

use vstd::prelude::*;
use crate::errors::Error;
use crate::ids::Uuid;
use crate::models::{id_of, Image, ImageView, Job, JobStatus, User};
use crate::ownership::{filter_jobs, find_version, jobs_of, select_version};
use crate::protocol::{Action, ActionView, Body, BodyView, Event, EventView, Response, ResponseView};
use crate::provisioning::{
    create_machine_request, machine_request_for, MachineRequest, MachineRequestView,
};

verus! {

/// A request to run an image version.
#[derive(Debug)]
pub struct CreateJob {
    pub image_id: Uuid,
    pub image_version_id: Uuid,
    pub cpu: String,
    pub gpu: String,
}

pub struct CreateJobView {
    pub image_id: Uuid,
    pub image_version_id: Uuid,
    pub cpu: Seq<char>,
    pub gpu: Seq<char>,
}

impl View for CreateJob {
    type V = CreateJobView;

    open spec fn view(&self) -> CreateJobView {
        CreateJobView {
            image_id: self.image_id,
            image_version_id: self.image_version_id,
            cpu: self.cpu@,
            gpu: self.gpu@,
        }
    }
}

/// Where a job handler stands.
#[derive(Debug)]
pub enum JobFlow {
    /// Creating: the transaction is being opened.
    Opening { user_id: Uuid, request: CreateJob },
    /// Creating: the image is being loaded.
    LoadingImage { user_id: Uuid, request: CreateJob },
    /// Creating: the requester owns the image; its versions are being
    /// loaded.
    LoadingVersions { user_id: Uuid, request: CreateJob, image: Image },
    /// Creating: the version is resolved; the job row is being written.
    Inserting { user_id: Uuid, image_version_id: Uuid, machine: MachineRequest },
    /// Creating: the job row is written; the machine is being asked for.
    Provisioning { job: Job },
    /// Creating: the machine is there; the transaction is being committed.
    Committing { job: Job },
    /// Creating: the request has failed; the transaction is being rolled
    /// back.
    Aborting { error: Error },
    /// Listing: the user's jobs are being read.
    Listing { user_id: Uuid },
}

pub enum JobFlowView {
    Opening { user_id: Uuid, request: CreateJobView },
    LoadingImage { user_id: Uuid, request: CreateJobView },
    LoadingVersions { user_id: Uuid, request: CreateJobView, image: ImageView },
    Inserting { user_id: Uuid, image_version_id: Uuid, machine: MachineRequestView },
    Provisioning { job: Job },
    Committing { job: Job },
    Aborting { error: Error },
    Listing { user_id: Uuid },
}

impl View for JobFlow {
    type V = JobFlowView;

    open spec fn view(&self) -> JobFlowView {
        match self {
            JobFlow::Opening { user_id, request } => JobFlowView::Opening {
                user_id: *user_id,
                request: request@,
            },
            JobFlow::LoadingImage { user_id, request } => JobFlowView::LoadingImage {
                user_id: *user_id,
                request: request@,
            },
            JobFlow::LoadingVersions { user_id, request, image } => JobFlowView::LoadingVersions {
                user_id: *user_id,
                request: request@,
                image: image@,
            },
            JobFlow::Inserting { user_id, image_version_id, machine } => JobFlowView::Inserting {
                user_id: *user_id,
                image_version_id: *image_version_id,
                machine: machine@,
            },
            JobFlow::Provisioning { job } => JobFlowView::Provisioning { job: *job },
            JobFlow::Committing { job } => JobFlowView::Committing { job: *job },
            JobFlow::Aborting { error } => JobFlowView::Aborting { error: *error },
            JobFlow::Listing { user_id } => JobFlowView::Listing { user_id: *user_id },
        }
    }
}

/// The view of a handler that may have finished.
pub open spec fn job_flow_view(flow: Option<JobFlow>) -> Option<JobFlowView> {
    match flow {
        Some(flow) => Some(flow@),
        None => None,
    }
}

/// Leaves the transaction: the handler rolls back and will then report
/// `error`.
pub open spec fn abort(error: Error) -> (Option<JobFlowView>, ActionView) {
    (Some(JobFlowView::Aborting { error }), ActionView::Rollback)
}

/// Whether a row that the store hands back is the job that was asked
/// for: pending, of the requester, on the resolved version.
pub open spec fn is_requested_job(job: Job, user_id: Uuid, image_version_id: Uuid) -> bool {
    job.user_id == user_id && job.status == JobStatus::Pending && job.image_version_id
        == image_version_id
}

/// How creating a job begins. Without a user nothing is begun.
pub open spec fn create_job_start(user_id: Option<Uuid>, request: CreateJobView) -> (
    Option<JobFlowView>,
    ActionView,
) {
    match user_id {
        Some(user_id) => (Some(JobFlowView::Opening { user_id, request }), ActionView::Begin),
        None => (None, ActionView::fail(Error::Unauthenticated)),
    }
}

/// How listing a user's jobs begins.
pub open spec fn get_jobs_start(user_id: Option<Uuid>) -> (Option<JobFlowView>, ActionView) {
    match user_id {
        Some(user_id) => (
            Some(JobFlowView::Listing { user_id }),
            ActionView::ReadJobsOfUser { user_id },
        ),
        None => (None, ActionView::fail(Error::Unauthenticated)),
    }
}

/// What a job handler does on an event: where it stands next, if it goes
/// on, and what it asks for.
pub open spec fn job_step(flow: JobFlowView, event: EventView) -> (Option<JobFlowView>, ActionView) {
    match flow {
        JobFlowView::Opening { user_id, request } => match event {
            EventView::Done => (
                Some(JobFlowView::LoadingImage { user_id, request }),
                ActionView::ReadImage { id: request.image_id },
            ),
            _ => (None, ActionView::fail(Error::StoreError)),
        },
        JobFlowView::LoadingImage { user_id, request } => match event {
            EventView::Image(Some(image)) => if image.id != request.image_id {
                abort(Error::NotFound)
            } else if image.user_id != user_id {
                abort(Error::Unauthorized)
            } else {
                (
                    Some(JobFlowView::LoadingVersions { user_id, request, image }),
                    ActionView::ReadVersionsOfImage { image_id: request.image_id },
                )
            },
            EventView::Image(None) => abort(Error::NotFound),
            _ => abort(Error::StoreError),
        },
        JobFlowView::LoadingVersions { user_id, request, image } => match event {
            EventView::Versions(versions) => match find_version(
                versions,
                request.image_id,
                request.image_version_id,
            ) {
                Some(version) => (
                    Some(
                        JobFlowView::Inserting {
                            user_id,
                            image_version_id: version.id,
                            machine: machine_request_for(
                                user_id,
                                request.cpu,
                                request.gpu,
                                image,
                                version,
                            ),
                        },
                    ),
                    ActionView::InsertJob {
                        user_id,
                        status: JobStatus::Pending,
                        image_version_id: version.id,
                    },
                ),
                None => abort(Error::NotFound),
            },
            _ => abort(Error::StoreError),
        },
        JobFlowView::Inserting { user_id, image_version_id, machine } => match event {
            EventView::Job(job) => if is_requested_job(job, user_id, image_version_id) {
                (
                    Some(JobFlowView::Provisioning { job }),
                    ActionView::CreateMachine { machine },
                )
            } else {
                abort(Error::StoreError)
            },
            _ => abort(Error::StoreError),
        },
        JobFlowView::Provisioning { job } => match event {
            EventView::Done => (Some(JobFlowView::Committing { job }), ActionView::Commit),
            _ => abort(Error::ProvisioningError),
        },
        JobFlowView::Committing { job } => match event {
            EventView::Done => (
                None,
                ActionView::Respond { response: ResponseView::created(BodyView::Job(job)) },
            ),
            _ => (None, ActionView::fail(Error::StoreError)),
        },
        JobFlowView::Aborting { error } => (None, ActionView::fail(error)),
        JobFlowView::Listing { user_id } => match event {
            EventView::Jobs(jobs) => (
                None,
                ActionView::Respond {
                    response: ResponseView::ok(BodyView::Jobs(jobs_of(jobs, user_id))),
                },
            ),
            _ => (None, ActionView::fail(Error::StoreError)),
        },
    }
}

fn abort_with(error: Error) -> (next: (Option<JobFlow>, Action))
    ensures
        (job_flow_view(next.0), next.1@) == abort(error),
{
    (Some(JobFlow::Aborting { error }), Action::Rollback)
}

/// Begins creating a job for the authenticated user, if there is one.
pub fn create_job(user: Option<&User>, request: CreateJob) -> (next: (Option<JobFlow>, Action))
    ensures
        (job_flow_view(next.0), next.1@) == create_job_start(id_of(user), request@),
{
    match user {
        Some(user) => (Some(JobFlow::Opening { user_id: user.id, request }), Action::Begin),
        None => (None, Action::fail(Error::Unauthenticated)),
    }
}

/// Begins listing the jobs of the authenticated user, if there is one.
pub fn get_jobs(user: Option<&User>) -> (next: (Option<JobFlow>, Action))
    ensures
        (job_flow_view(next.0), next.1@) == get_jobs_start(id_of(user)),
{
    match user {
        Some(user) => (
            Some(JobFlow::Listing { user_id: user.id }),
            Action::ReadJobsOfUser { user_id: user.id },
        ),
        None => (None, Action::fail(Error::Unauthenticated)),
    }
}

impl JobFlow {
    /// Takes what came of the last action and says what to do next.
    pub fn step(self, event: Event) -> (next: (Option<JobFlow>, Action))
        ensures
            (job_flow_view(next.0), next.1@) == job_step(self@, event@),
    {
        match self {
            JobFlow::Opening { user_id, request } => match event {
                Event::Done => {
                    let id = request.image_id;
                    (Some(JobFlow::LoadingImage { user_id, request }), Action::ReadImage { id })
                },
                _ => (None, Action::fail(Error::StoreError)),
            },
            JobFlow::LoadingImage { user_id, request } => match event {
                Event::Image(Some(image)) => {
                    if image.id != request.image_id {
                        abort_with(Error::NotFound)
                    } else if image.user_id != user_id {
                        abort_with(Error::Unauthorized)
                    } else {
                        let image_id = request.image_id;
                        (
                            Some(JobFlow::LoadingVersions { user_id, request, image }),
                            Action::ReadVersionsOfImage { image_id },
                        )
                    }
                },
                Event::Image(None) => abort_with(Error::NotFound),
                _ => abort_with(Error::StoreError),
            },
            JobFlow::LoadingVersions { user_id, request, image } => match event {
                Event::Versions(versions) => {
                    match select_version(&versions, request.image_id, request.image_version_id) {
                        Some(version) => {
                            let machine = create_machine_request(
                                user_id,
                                request.cpu.as_str(),
                                request.gpu.as_str(),
                                &image,
                                &version,
                            );
                            (
                                Some(
                                    JobFlow::Inserting {
                                        user_id,
                                        image_version_id: version.id,
                                        machine,
                                    },
                                ),
                                Action::InsertJob {
                                    user_id,
                                    status: JobStatus::Pending,
                                    image_version_id: version.id,
                                },
                            )
                        },
                        None => abort_with(Error::NotFound),
                    }
                },
                _ => abort_with(Error::StoreError),
            },
            JobFlow::Inserting { user_id, image_version_id, machine } => match event {
                Event::Job(job) => {
                    if job.user_id == user_id && job.status == JobStatus::Pending
                        && job.image_version_id == image_version_id {
                        (
                            Some(JobFlow::Provisioning { job }),
                            Action::CreateMachine { machine },
                        )
                    } else {
                        abort_with(Error::StoreError)
                    }
                },
                _ => abort_with(Error::StoreError),
            },
            JobFlow::Provisioning { job } => match event {
                Event::Done => (Some(JobFlow::Committing { job }), Action::Commit),
                _ => abort_with(Error::ProvisioningError),
            },
            JobFlow::Committing { job } => match event {
                Event::Done => (
                    None,
                    Action::Respond { response: Response::created(Body::Job(job)) },
                ),
                _ => (None, Action::fail(Error::StoreError)),
            },
            JobFlow::Aborting { error } => (None, Action::fail(error)),
            JobFlow::Listing { user_id } => match event {
                Event::Jobs(jobs) => (
                    None,
                    Action::Respond {
                        response: Response::ok(Body::Jobs(filter_jobs(&jobs, user_id))),
                    },
                ),
                _ => (None, Action::fail(Error::StoreError)),
            },
        }
    }
}

} // verus!
